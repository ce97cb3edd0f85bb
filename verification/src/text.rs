//! The line-structure model of a text buffer, and the verified operations on
//! one buffer's contents: appending text, draining everything, and draining or
//! peeking whole lines (a line ends with, and includes, its `'\n'`).

use vstd::prelude::*;
use vstd::string::StrSliceExecFns;
use vstd::string::StringExecFns;

verus! {

/// Index one past the first newline of `s` at or after `from`, when a newline
/// stands at or after `from`.
pub open spec fn next_line_end(s: Seq<char>, from: int) -> Option<int>
    decreases s.len() - from,
{
    if from < 0 || from >= s.len() {
        None
    } else if s[from] == '\n' {
        Some(from + 1)
    } else {
        next_line_end(s, from + 1)
    }
}

/// Index one past the `n`-th newline of `s`: the end of the block made of the
/// first `n` complete lines. `Some(0)` when `n == 0`; `None` when `s` holds
/// fewer than `n` newlines.
pub open spec fn lines_end(s: Seq<char>, n: nat) -> Option<int>
    decreases n,
{
    if n == 0 {
        Some(0)
    } else {
        match lines_end(s, (n - 1) as nat) {
            Some(e) => next_line_end(s, e),
            None => None,
        }
    }
}

/// How many newline characters `s` holds.
pub open spec fn newline_count(s: Seq<char>) -> nat
    decreases s.len(),
{
    if s.len() == 0 {
        0
    } else {
        newline_count(s.drop_last()) + if s.last() == '\n' {
            1nat
        } else {
            0nat
        }
    }
}

/// What a found line end means: it lies past `from`, the character before it
/// is the newline, and no newline stands in between; and what a missing one
/// means: no newline stands at or after `from` at all.
pub proof fn lemma_next_line_end_props(s: Seq<char>, from: int)
    requires
        0 <= from <= s.len(),
    ensures
        match next_line_end(s, from) {
            Some(e) => from < e <= s.len() && s[e - 1] == '\n' && (forall|i: int|
                from <= i < e - 1 ==> s[i] != '\n'),
            None => forall|i: int| from <= i < s.len() ==> s[i] != '\n',
        },
    decreases s.len() - from,
{
    if from < s.len() && s[from] != '\n' {
        lemma_next_line_end_props(s, from + 1);
    }
}

/// The first newline at or after `from` pins the line end down.
pub proof fn lemma_next_line_end_found(s: Seq<char>, from: int, i: int)
    requires
        0 <= from <= i < s.len(),
        s[i] == '\n',
        forall|j: int| from <= j < i ==> s[j] != '\n',
    ensures
        next_line_end(s, from) == Some(i + 1),
    decreases i - from,
{
    if from < i {
        lemma_next_line_end_found(s, from + 1, i);
    }
}

/// Without a newline at or after `from` there is no line end either.
pub proof fn lemma_next_line_end_none(s: Seq<char>, from: int)
    requires
        0 <= from <= s.len(),
        forall|j: int| from <= j < s.len() ==> s[j] != '\n',
    ensures
        next_line_end(s, from) is None,
    decreases s.len() - from,
{
    if from < s.len() {
        lemma_next_line_end_none(s, from + 1);
    }
}

/// The end of the first `n` complete lines lies within the text, and — for
/// `n >= 1` — right after a newline.
pub proof fn lemma_lines_end_props(s: Seq<char>, n: nat)
    ensures
        match lines_end(s, n) {
            Some(e) => 0 <= e <= s.len() && (n > 0 ==> e > 0 && s[e - 1] == '\n'),
            None => n > 0,
        },
    decreases n,
{
    if n > 0 {
        lemma_lines_end_props(s, (n - 1) as nat);
        match lines_end(s, (n - 1) as nat) {
            Some(e) => lemma_next_line_end_props(s, e),
            None => (),
        }
    }
}

/// Once `s` runs out of newlines for `k` lines, it has run out for every
/// larger count as well.
pub proof fn lemma_lines_end_none_beyond(s: Seq<char>, k: nat, n: nat)
    requires
        k <= n,
        lines_end(s, k) is None,
    ensures
        lines_end(s, n) is None,
    decreases n - k,
{
    if k < n {
        lemma_lines_end_none_beyond(s, k, (n - 1) as nat);
    }
}

/// A stretch without newlines adds nothing to the newline count of a prefix.
pub proof fn lemma_newline_count_stable(s: Seq<char>, from: int, k: int)
    requires
        0 <= from <= k <= s.len(),
        forall|j: int| from <= j < k ==> s[j] != '\n',
    ensures
        newline_count(s.subrange(0, k)) == newline_count(s.subrange(0, from)),
    decreases k - from,
{
    if from < k {
        lemma_newline_count_stable(s, from, k - 1);
        assert(s.subrange(0, k).drop_last() =~= s.subrange(0, k - 1));
    }
}

/// The block made of the first `n` complete lines holds exactly `n` newlines.
pub proof fn lemma_lines_end_count(s: Seq<char>, n: nat)
    requires
        lines_end(s, n) is Some,
    ensures
        newline_count(s.subrange(0, lines_end(s, n)->0)) == n,
    decreases n,
{
    if n == 0 {
        assert(s.subrange(0, 0) =~= Seq::<char>::empty());
    } else {
        let prev = lines_end(s, (n - 1) as nat);
        assert(prev is Some);
        lemma_lines_end_count(s, (n - 1) as nat);
        lemma_lines_end_props(s, (n - 1) as nat);
        let e1 = prev->0;
        lemma_next_line_end_props(s, e1);
        let e = lines_end(s, n)->0;
        assert(next_line_end(s, e1) == Some(e));
        lemma_newline_count_stable(s, e1, e - 1);
        assert(s.subrange(0, e).drop_last() =~= s.subrange(0, e - 1));
        assert(s.subrange(0, e).last() == s[e - 1]);
    }
}

fn find_newline_from(s: &str, from: usize) -> (r: Option<usize>)
    requires
        from <= s@.len(),
    ensures
        match r {
            Some(i) => from <= i < s@.len() && s@[i as int] == '\n' && next_line_end(
                s@,
                from as int,
            ) == Some(i + 1),
            None => next_line_end(s@, from as int) is None,
        },
{
    let n: usize = s.unicode_len();
    let mut i: usize = from;
    while i < n
        invariant
            from <= i <= n,
            n == s@.len(),
            forall|j: int| from <= j < i ==> s@[j] != '\n',
        decreases n - i,
    {
        if s.get_char(i) == '\n' {
            proof {
                lemma_next_line_end_found(s@, from as int, i as int);
            }
            return Some(i);
        }
        i = i + 1;
    }
    proof {
        lemma_next_line_end_none(s@, from as int);
    }
    None
}

fn find_lines_end(s: &str, cnt: usize) -> (r: Option<usize>)
    ensures
        match r {
            Some(e) => lines_end(s@, cnt as nat) == Some(e as int),
            None => lines_end(s@, cnt as nat) is None,
        },
{
    let n: usize = s.unicode_len();
    let mut k: usize = 0;
    let mut offset: usize = 0;
    while k < cnt
        invariant
            k <= cnt,
            n == s@.len(),
            offset <= s@.len(),
            lines_end(s@, k as nat) == Some(offset as int),
        decreases cnt - k,
    {
        match find_newline_from(s, offset) {
            Some(i) => {
                offset = i + 1;
                k = k + 1;
                assert(lines_end(s@, k as nat) == Some(offset as int));
            },
            None => {
                assert(lines_end(s@, (k + 1) as nat) is None);
                proof {
                    lemma_lines_end_none_beyond(s@, (k + 1) as nat, cnt as nat);
                }
                return None;
            },
        }
    }
    Some(offset)
}

/// Scans `buf` for its first `cnt` complete lines. When at least `cnt`
/// newlines stand in `buf`, returns everything through the `cnt`-th newline,
/// inclusive, and — unless `peek_only` is set — removes that block from `buf`.
/// With fewer than `cnt` newlines, returns nothing and changes nothing; a
/// trailing newline-less remainder always stays in the buffer.
pub fn get_lines(buf: &mut String, cnt: usize, peek_only: bool) -> (r: Option<String>)
    ensures
        match lines_end(old(buf)@, cnt as nat) {
            Some(e) => r is Some && r->0@ == old(buf)@.subrange(0, e) && final(buf)@ == (
            if peek_only {
                old(buf)@
            } else {
                old(buf)@.subrange(e, old(buf)@.len() as int)
            }),
            None => r is None && final(buf)@ == old(buf)@,
        },
{
    let n: usize = buf.as_str().unicode_len();
    match find_lines_end(buf.as_str(), cnt) {
        None => None,
        Some(e) => {
            proof {
                lemma_lines_end_props(buf@, cnt as nat);
            }
            let head: String = buf.as_str().substring_char(0, e).to_owned();
            if !peek_only {
                let rest: String = buf.as_str().substring_char(e, n).to_owned();
                *buf = rest;
            }
            Some(head)
        },
    }
}

/// Takes the whole contents of `buf`, leaving it empty; nothing is taken from
/// an empty buffer.
pub fn take_all(buf: &mut String) -> (r: Option<String>)
    ensures
        match r {
            Some(t) => old(buf)@.len() > 0 && t@ == old(buf)@ && final(buf)@.len() == 0,
            None => old(buf)@.len() == 0 && final(buf)@ == old(buf)@,
        },
{
    if buf.as_str().is_empty() {
        None
    } else {
        let mut taken: String = String::new();
        core::mem::swap(&mut taken, buf);
        Some(taken)
    }
}

/// Appends `text` verbatim — embedded newlines included — to the end of `buf`.
pub fn append_text(buf: &mut String, text: &str)
    ensures
        final(buf)@ == old(buf)@ + text@,
{
    buf.append(text);
}

} // verus!
