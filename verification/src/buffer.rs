//! A mutex-guarded growable text buffer with line-delimiter-aware extraction.
//! Every read and write happens with the lock held, so the buffer is never
//! seen in a torn state; concurrent appends interleave only between whole
//! critical sections.

use vstd::prelude::*;
use vstd::rwlock::RwLock;

use crate::text;

verus! {

/// A shared text buffer behind a lock. Any text is admissible as contents;
/// the lock only rules out torn reads and torn writes.
pub struct SharedBuffer {
    cell: RwLock<String, spec_fn(String) -> bool>,
}

impl SharedBuffer {
    #[verifier::type_invariant]
    spec fn wf(&self) -> bool {
        forall|s: String| #[trigger] self.cell.inv(s)
    }

    /// A fresh, empty buffer.
    pub fn new() -> (r: SharedBuffer) {
        let ghost pred: spec_fn(String) -> bool = |s: String| true;
        let cell = RwLock::new(String::new(), Ghost(pred));
        SharedBuffer { cell }
    }

    /// Appends `text` verbatim to the end of the buffer, as one atomic
    /// operation. A no-op when `text` is empty.
    pub fn append(&self, text: &str) {
        proof {
            use_type_invariant(self);
        }
        let (mut s, handle) = self.cell.acquire_write();
        text::append_text(&mut s, text);
        handle.release_write(s);
    }

    /// Appends `text` and then a single newline, within one critical section:
    /// no reader ever sees the text without its newline.
    pub fn append_line(&self, text: &str) {
        proof {
            use_type_invariant(self);
        }
        let (mut s, handle) = self.cell.acquire_write();
        text::append_text(&mut s, text);
        text::append_text(&mut s, "\n");
        handle.release_write(s);
    }

    /// Empties the buffer, discarding whatever it held — the explicit reset
    /// operation; the buffer is never cleared implicitly.
    pub fn clear(&self) {
        proof {
            use_type_invariant(self);
        }
        let (s, handle) = self.cell.acquire_write();
        handle.release_write(String::new());
    }

    /// Atomically swaps the whole contents out, leaving the buffer empty;
    /// signals nothing available when the buffer is empty.
    pub fn drain_all(&self) -> (r: Option<String>)
        ensures
            r matches Some(t) ==> t@.len() > 0,
    {
        proof {
            use_type_invariant(self);
        }
        let (mut s, handle) = self.cell.acquire_write();
        let r = text::take_all(&mut s);
        handle.release_write(s);
        r
    }

    /// Removes and returns everything through the `cnt`-th newline, inclusive;
    /// signals nothing available — and changes nothing — when fewer than `cnt`
    /// complete lines are buffered.
    pub fn drain_lines(&self, cnt: usize) -> (r: Option<String>)
        requires
            cnt >= 1,
        ensures
            r matches Some(t) ==> t@.len() > 0 && t@.last() == '\n' && text::newline_count(t@)
                == cnt,
    {
        proof {
            use_type_invariant(self);
        }
        let (mut s, handle) = self.cell.acquire_write();
        let ghost held = s@;
        let r = text::get_lines(&mut s, cnt, false);
        handle.release_write(s);
        proof {
            if text::lines_end(held, cnt as nat) is Some {
                lemma_drained_block_shape(held, cnt as nat);
            }
        }
        r
    }

    /// Returns everything through the `cnt`-th newline without removing it —
    /// a read-only snapshot; signals nothing available when fewer than `cnt`
    /// complete lines are buffered.
    pub fn peek_lines(&self, cnt: usize) -> (r: Option<String>)
        requires
            cnt >= 1,
        ensures
            r matches Some(t) ==> t@.len() > 0 && t@.last() == '\n' && text::newline_count(t@)
                == cnt,
    {
        proof {
            use_type_invariant(self);
        }
        let (mut s, handle) = self.cell.acquire_write();
        let ghost held = s@;
        let r = text::get_lines(&mut s, cnt, true);
        handle.release_write(s);
        proof {
            if text::lines_end(held, cnt as nat) is Some {
                lemma_drained_block_shape(held, cnt as nat);
            }
        }
        r
    }
}

/// The block of the first `n` complete lines (`n >= 1`) is non-empty, ends
/// with a newline, and holds exactly `n` newlines.
proof fn lemma_drained_block_shape(s: Seq<char>, n: nat)
    requires
        n >= 1,
        text::lines_end(s, n) is Some,
    ensures
        ({
            let e = text::lines_end(s, n)->0;
            0 < e <= s.len() && s.subrange(0, e).len() > 0 && s.subrange(0, e).last() == '\n'
                && text::newline_count(s.subrange(0, e)) == n
        }),
{
    text::lemma_lines_end_props(s, n);
    text::lemma_lines_end_count(s, n);
}

} // verus!
