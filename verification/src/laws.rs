//! Laws of one stream's buffer, stated over the same model that the
//! executable operations are specified against: any run of sends, drains and
//! peeks delivers every character at most once, in order, and peeking agrees
//! with — without pre-empting — the drain that follows it.

use vstd::prelude::*;

use crate::text;

verus! {

/// One operation on a stream's buffer, as the contracts model it: `Append`
/// and `AppendLine` stand for `send`/`write` and `send_line`; `DrainAll` for
/// the `recv` family; `DrainLines` for the `recv_line`/`recv_lines` family;
/// `PeekLines` for the `peek` family.
pub enum BufferOp {
    Append(Seq<char>),
    AppendLine(Seq<char>),
    DrainAll,
    DrainLines(nat),
    PeekLines(nat),
}

/// The text an operation feeds into the buffer.
pub open spec fn op_sent(op: BufferOp) -> Seq<char> {
    match op {
        BufferOp::Append(t) => t,
        BufferOp::AppendLine(t) => t + seq!['\n'],
        BufferOp::DrainAll => Seq::empty(),
        BufferOp::DrainLines(n) => Seq::empty(),
        BufferOp::PeekLines(n) => Seq::empty(),
    }
}

/// The buffer after an operation runs on contents `s`.
pub open spec fn op_remaining(s: Seq<char>, op: BufferOp) -> Seq<char> {
    match op {
        BufferOp::Append(t) => s + t,
        BufferOp::AppendLine(t) => s + t + seq!['\n'],
        BufferOp::DrainAll => Seq::empty(),
        BufferOp::DrainLines(n) => match text::lines_end(s, n) {
            Some(e) => s.subrange(e, s.len() as int),
            None => s,
        },
        BufferOp::PeekLines(n) => s,
    }
}

/// The text an operation removes from the buffer and hands to its caller.
/// A peek hands out a copy but removes nothing, so it delivers nothing here.
pub open spec fn op_delivered(s: Seq<char>, op: BufferOp) -> Seq<char> {
    match op {
        BufferOp::Append(t) => Seq::empty(),
        BufferOp::AppendLine(t) => Seq::empty(),
        BufferOp::DrainAll => s,
        BufferOp::DrainLines(n) => match text::lines_end(s, n) {
            Some(e) => s.subrange(0, e),
            None => Seq::empty(),
        },
        BufferOp::PeekLines(n) => Seq::empty(),
    }
}

/// The buffer after a whole run of operations on initial contents `s`.
pub open spec fn run_remaining(s: Seq<char>, ops: Seq<BufferOp>) -> Seq<char>
    decreases ops.len(),
{
    if ops.len() == 0 {
        s
    } else {
        run_remaining(op_remaining(s, ops[0]), ops.skip(1))
    }
}

/// Everything a whole run of operations delivers, in delivery order.
pub open spec fn run_delivered(s: Seq<char>, ops: Seq<BufferOp>) -> Seq<char>
    decreases ops.len(),
{
    if ops.len() == 0 {
        Seq::empty()
    } else {
        op_delivered(s, ops[0]) + run_delivered(op_remaining(s, ops[0]), ops.skip(1))
    }
}

/// Everything a whole run of operations sends, in send order.
pub open spec fn run_sent(ops: Seq<BufferOp>) -> Seq<char>
    decreases ops.len(),
{
    if ops.len() == 0 {
        Seq::empty()
    } else {
        op_sent(ops[0]) + run_sent(ops.skip(1))
    }
}

/// The executable append realizes the model: the contract of
/// `text::append_text` — the new contents are the old followed by the text —
/// is exactly the `Append` step, which delivers nothing.
pub proof fn lemma_append_realizes_model(s: Seq<char>, t: Seq<char>, after: Seq<char>)
    requires
        after == s + t,
    ensures
        after == op_remaining(s, BufferOp::Append(t)),
        op_delivered(s, BufferOp::Append(t)) == Seq::<char>::empty(),
        op_sent(BufferOp::Append(t)) == t,
{
}

/// The executable line append realizes the model: appending the text and then
/// a newline within one critical section, as `SharedBuffer::append_line` does
/// through `text::append_text`, is exactly the `AppendLine` step.
pub proof fn lemma_append_line_realizes_model(s: Seq<char>, t: Seq<char>, after: Seq<char>)
    requires
        after == (s + t) + seq!['\n'],
    ensures
        after == op_remaining(s, BufferOp::AppendLine(t)),
        op_delivered(s, BufferOp::AppendLine(t)) == Seq::<char>::empty(),
        op_sent(BufferOp::AppendLine(t)) == t + seq!['\n'],
{
    assert(after =~= s + t + seq!['\n']);
}

/// The executable drain-all realizes the model: any outcome admitted by the
/// contract of `text::take_all` — the whole non-empty contents swapped out,
/// or nothing taken from an empty buffer — is exactly the `DrainAll` step.
pub proof fn lemma_drain_all_realizes_model(s: Seq<char>, r: Option<Seq<char>>, after: Seq<char>)
    requires
        match r {
            Some(t) => s.len() > 0 && t == s && after.len() == 0,
            None => s.len() == 0 && after == s,
        },
    ensures
        after == op_remaining(s, BufferOp::DrainAll),
        (match r {
            Some(t) => t,
            None => Seq::<char>::empty(),
        }) == op_delivered(s, BufferOp::DrainAll),
{
    match r {
        Some(t) => {
            assert(after =~= Seq::<char>::empty());
        },
        None => {
            assert(s =~= Seq::<char>::empty());
        },
    }
}

/// The executable line drain realizes the model: any outcome admitted by the
/// draining contract of `text::get_lines` — the block through the `n`-th
/// newline removed, or nothing and no change — is exactly the `DrainLines`
/// step.
pub proof fn lemma_drain_realizes_model(
    s: Seq<char>,
    n: nat,
    r: Option<Seq<char>>,
    after: Seq<char>,
)
    requires
        match text::lines_end(s, n) {
            Some(e) => r is Some && r->0 == s.subrange(0, e) && after == s.subrange(
                e,
                s.len() as int,
            ),
            None => r is None && after == s,
        },
    ensures
        after == op_remaining(s, BufferOp::DrainLines(n)),
        (match r {
            Some(t) => t,
            None => Seq::<char>::empty(),
        }) == op_delivered(s, BufferOp::DrainLines(n)),
{
}

/// The executable peek realizes the model: any outcome admitted by the
/// peeking contract of `text::get_lines` — the same block handed out, the
/// contents untouched — is exactly the `PeekLines` step, and the handed-out
/// block is `peeked`.
pub proof fn lemma_peek_realizes_model(s: Seq<char>, n: nat, r: Option<Seq<char>>, after: Seq<char>)
    requires
        match text::lines_end(s, n) {
            Some(e) => r is Some && r->0 == s.subrange(0, e),
            None => r is None,
        },
        after == s,
    ensures
        after == op_remaining(s, BufferOp::PeekLines(n)),
        op_delivered(s, BufferOp::PeekLines(n)) == Seq::<char>::empty(),
        r == peeked(s, n),
{
}

/// One operation conserves text: what it delivers, followed by what it
/// leaves, is what was there followed by what it sent.
pub proof fn lemma_op_conserves_text(s: Seq<char>, op: BufferOp)
    ensures
        op_delivered(s, op) + op_remaining(s, op) == s + op_sent(op),
{
    match op {
        BufferOp::Append(t) => {
            assert(op_delivered(s, op) + op_remaining(s, op) =~= s + op_sent(op));
        },
        BufferOp::AppendLine(t) => {
            assert(op_delivered(s, op) + op_remaining(s, op) =~= s + op_sent(op));
        },
        BufferOp::DrainAll => {
            assert(op_delivered(s, op) + op_remaining(s, op) =~= s + op_sent(op));
        },
        BufferOp::DrainLines(n) => {
            text::lemma_lines_end_props(s, n);
            assert(op_delivered(s, op) + op_remaining(s, op) =~= s + op_sent(op));
        },
        BufferOp::PeekLines(n) => {
            assert(op_delivered(s, op) + op_remaining(s, op) =~= s + op_sent(op));
        },
    }
}

/// Delivery is exact — at most once, in order. Across any run of sends,
/// drains and peeks, the text delivered to the caller followed by the text
/// still buffered is exactly the initial text followed by everything sent:
/// no character is ever duplicated, dropped, or reordered.
pub proof fn lemma_exact_delivery(s: Seq<char>, ops: Seq<BufferOp>)
    ensures
        run_delivered(s, ops) + run_remaining(s, ops) == s + run_sent(ops),
    decreases ops.len(),
{
    if ops.len() > 0 {
        let s1 = op_remaining(s, ops[0]);
        lemma_op_conserves_text(s, ops[0]);
        lemma_exact_delivery(s1, ops.skip(1));
        assert(run_delivered(s, ops) + run_remaining(s, ops) =~= op_delivered(s, ops[0]) + (
        run_delivered(s1, ops.skip(1)) + run_remaining(s1, ops.skip(1))));
        assert(op_delivered(s, ops[0]) + (s1 + run_sent(ops.skip(1))) =~= (op_delivered(s, ops[0])
            + s1) + run_sent(ops.skip(1)));
        assert((s + op_sent(ops[0])) + run_sent(ops.skip(1)) =~= s + run_sent(ops));
    }
}

/// The block the peek family hands out of contents `s`: the first `n`
/// complete lines, when that many are buffered.
pub open spec fn peeked(s: Seq<char>, n: nat) -> Option<Seq<char>> {
    match text::lines_end(s, n) {
        Some(e) => Some(s.subrange(0, e)),
        None => None,
    }
}

/// Peeking is idempotent and agrees with draining: a peek changes nothing,
/// so a second peek returns the identical block; and the drain that follows
/// returns exactly that block and removes exactly it.
pub proof fn lemma_peek_agrees_with_drain(s: Seq<char>, n: nat)
    ensures
        op_remaining(s, BufferOp::PeekLines(n)) == s,
        peeked(op_remaining(s, BufferOp::PeekLines(n)), n) == peeked(s, n),
        peeked(s, n) matches Some(t) ==> op_delivered(s, BufferOp::DrainLines(n)) == t && t
            + op_remaining(s, BufferOp::DrainLines(n)) == s,
{
    if peeked(s, n) is Some {
        let e = text::lines_end(s, n)->0;
        text::lemma_lines_end_props(s, n);
        assert(s.subrange(0, e) + s.subrange(e, s.len() as int) =~= s);
    }
}

/// Scanning a suffix finds the same newline that scanning the whole text
/// from the matching position finds, shifted by the cut.
proof fn lemma_next_line_end_shift(s: Seq<char>, d: int, from: int)
    requires
        0 <= d <= s.len(),
        0 <= from <= s.len() - d,
    ensures
        text::next_line_end(s.subrange(d, s.len() as int), from) == (match text::next_line_end(
            s,
            d + from,
        ) {
            Some(e) => Some(e - d),
            None => None::<int>,
        }),
    decreases s.len() - d - from,
{
    let t = s.subrange(d, s.len() as int);
    if from < t.len() {
        assert(t[from] == s[d + from]);
        if t[from] != '\n' {
            lemma_next_line_end_shift(s, d, from + 1);
        }
    }
}

/// Draining one line advances the stream by exactly one line: what the next
/// drain returns is the second line of the original text.
pub proof fn lemma_drain_line_advances(s: Seq<char>)
    requires
        text::lines_end(s, 2) is Some,
    ensures
        ({
            let e1 = text::lines_end(s, 1)->0;
            let e2 = text::lines_end(s, 2)->0;
            op_delivered(op_remaining(s, BufferOp::DrainLines(1)), BufferOp::DrainLines(1))
                == s.subrange(e1, e2)
        }),
{
    let e1 = text::lines_end(s, 1)->0;
    let e2 = text::lines_end(s, 2)->0;
    text::lemma_lines_end_props(s, 1);
    text::lemma_lines_end_props(s, 2);
    let t = s.subrange(e1, s.len() as int);
    assert(text::next_line_end(s, e1) == Some(e2));
    text::lemma_next_line_end_props(s, e1);
    lemma_next_line_end_shift(s, e1, 0);
    assert(text::next_line_end(t, 0) == Some(e2 - e1));
    assert(text::lines_end(t, 0nat) == Some(0int));
    assert(text::lines_end(t, 1) == Some(e2 - e1));
    assert(t.subrange(0, e2 - e1) =~= s.subrange(e1, e2));
}

} // verus!
