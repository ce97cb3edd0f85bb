//! The input channel: the simulated standard input. The embedding controller
//! feeds it with `send`/`send_line`; the simulated tool reads from it with
//! `read_line`/`read_to_string`, directly, through a locked guard, or through
//! a lazy sequence of completed lines.

use vstd::prelude::*;
use vstd::string::StrSliceExecFns;

use crate::buffer::SharedBuffer;
use crate::text;

verus! {

/// How many times a blocking read re-attempts its drain before reporting that
/// nothing arrived. Blocking reads busy-poll; a verified loop must name a
/// finite bound, and this one is large enough that exhausting it takes
/// centuries, so in practice a blocking read waits until data arrives.
const RETRY_BOUND: u64 = u64::MAX;

/// What a line read promises: either nothing was available and the
/// accumulator `cur` still equals `prev` (result 0), or exactly one complete
/// line — newline included — was appended to it and the new total character
/// count is returned. No error is ever returned.
pub open spec fn line_read_post(
    prev: Seq<char>,
    cur: Seq<char>,
    r: Result<usize, std::io::Error>,
) -> bool {
    match r {
        Ok(n) => if n == 0 {
            cur == prev
        } else {
            cur.len() == n && prev.len() < cur.len() && cur.subrange(0, prev.len() as int) == prev
                && cur.last() == '\n' && text::newline_count(cur.skip(prev.len() as int)) == 1
        },
        Err(_) => false,
    }
}

/// What a read of the whole buffer promises: either nothing was available and
/// the accumulator `cur` still equals `prev` (result 0), or some non-empty
/// text was appended to it and the count of appended characters is returned.
/// No error is ever returned.
pub open spec fn all_read_post(
    prev: Seq<char>,
    cur: Seq<char>,
    r: Result<usize, std::io::Error>,
) -> bool {
    match r {
        Ok(n) => if n == 0 {
            cur == prev
        } else {
            prev.len() < cur.len() && n == cur.len() - prev.len() && cur.subrange(
                0,
                prev.len() as int,
            ) == prev
        },
        Err(_) => false,
    }
}

/// The simulated standard input stream.
pub struct Altin {
    buffer: SharedBuffer,
}

/// A readable guard over the input stream; the counterpart of a locked
/// standard input handle. Each read takes the underlying lock for its own
/// duration, so a guard may be kept around freely and is trivially released
/// on every exit path. Its reads never wait for data; the lock acquisition
/// itself may wait briefly, as the underlying lock offers no try-acquire.
pub struct AltinLock<'a> {
    buffer: &'a SharedBuffer,
}

/// A lazy sequence of completed input lines: each advance drains at most one
/// line and reports the end of the sequence — without waiting for data — as
/// soon as no completed line is buffered. Fresh sends start it up again.
pub struct Lines<'a> {
    buffer: &'a SharedBuffer,
}

impl Altin {
    /// A fresh input channel with an empty buffer.
    pub fn new() -> Altin {
        Altin { buffer: SharedBuffer::new() }
    }

    /// Returns a readable guard over this input stream, which also offers
    /// `read_line`, `read_to_string` and `is_terminal`.
    pub fn lock(&self) -> AltinLock<'_> {
        AltinLock { buffer: &self.buffer }
    }

    /// Returns the lazy sequence of completed input lines.
    pub fn lines(&self) -> Lines<'_> {
        Lines { buffer: &self.buffer }
    }

    /// Sends text to the input stream, without an additional newline.
    /// A no-op when `text` is empty.
    pub fn send(&self, text: &str) {
        if !text.is_empty() {
            self.buffer.append(text);
        }
    }

    /// Sends text to the input stream followed by a single newline, as one
    /// atomic operation: no reader sees the text without its newline.
    pub fn send_line(&self, text: &str) {
        self.buffer.append_line(text);
    }

    /// Reads one line of input, appending it to `buf` and returning the new
    /// total length of `buf`. Blocks (busy-polls) while no complete line is
    /// buffered.
    pub fn read_line(&self, buf: &mut String) -> (r: Result<usize, std::io::Error>)
        ensures
            line_read_post(old(buf)@, final(buf)@, r),
    {
        let mut tries: u64 = 0;
        while tries < RETRY_BOUND
            invariant
                buf@ == old(buf)@,
            decreases RETRY_BOUND - tries,
        {
            match self.buffer.drain_lines(1) {
                Some(line) => {
                    return Ok(push_line(buf, line));
                },
                None => {
                    tries = tries + 1;
                },
            }
        }
        Ok(0)
    }

    /// Reads all buffered input, appending it to `buf` and returning how many
    /// characters arrived. Blocks (busy-polls) while the buffer is empty.
    pub fn read_to_string(&self, buf: &mut String) -> (r: Result<usize, std::io::Error>)
        ensures
            all_read_post(old(buf)@, final(buf)@, r),
    {
        let mut tries: u64 = 0;
        while tries < RETRY_BOUND
            invariant
                buf@ == old(buf)@,
            decreases RETRY_BOUND - tries,
        {
            match self.buffer.drain_all() {
                Some(t) => {
                    return Ok(push_all(buf, t));
                },
                None => {
                    tries = tries + 1;
                },
            }
        }
        Ok(0)
    }

    /// Reports false: the simulated stream is never a real terminal.
    pub fn is_terminal(&self) -> (r: bool)
        ensures
            r == false,
    {
        false
    }

    /// Empties the input buffer, discarding whatever it held.
    pub(crate) fn clear(&self) {
        self.buffer.clear();
    }
}

impl Default for Altin {
    /// A fresh input channel; the same as `Altin::new`.
    fn default() -> Altin {
        Altin::new()
    }
}

impl<'a> AltinLock<'a> {
    /// Reads one line of input, appending it to `buf` and returning the new
    /// total length of `buf`; returns 0 — leaving `buf` untouched — when no
    /// complete line is buffered. Never waits for data.
    pub fn read_line(&mut self, buf: &mut String) -> (r: Result<usize, std::io::Error>)
        ensures
            line_read_post(old(buf)@, final(buf)@, r),
    {
        match self.buffer.drain_lines(1) {
            Some(line) => Ok(push_line(buf, line)),
            None => Ok(0),
        }
    }

    /// Reads all buffered input, appending it to `buf` and returning how many
    /// characters arrived; returns 0 when the buffer is empty. Never waits
    /// for data.
    pub fn read_to_string(&mut self, buf: &mut String) -> (r: Result<usize, std::io::Error>)
        ensures
            all_read_post(old(buf)@, final(buf)@, r),
    {
        match self.buffer.drain_all() {
            Some(t) => Ok(push_all(buf, t)),
            None => Ok(0),
        }
    }

    /// Reports false: the simulated stream is never a real terminal.
    pub fn is_terminal(&self) -> (r: bool)
        ensures
            r == false,
    {
        false
    }
}

impl<'a> Lines<'a> {
    /// The next completed line, newline included; the end of the sequence —
    /// for now — when no completed line is buffered. Never waits for data.
    pub fn next(&mut self) -> (r: Option<String>)
        ensures
            r matches Some(t) ==> t@.len() > 0 && t@.last() == '\n' && text::newline_count(t@)
                == 1,
    {
        self.buffer.drain_lines(1)
    }
}

/// Appends one drained line to the accumulator, exactly and in full; returns
/// the accumulator's new total character count.
fn push_line(buf: &mut String, line: String) -> (n: usize)
    requires
        line@.len() > 0,
        line@.last() == '\n',
        text::newline_count(line@) == 1,
    ensures
        final(buf)@ == old(buf)@ + line@,
        n == final(buf)@.len(),
        line_read_post(old(buf)@, final(buf)@, Ok(n)),
{
    text::append_text(buf, line.as_str());
    let n: usize = buf.as_str().unicode_len();
    proof {
        assert(buf@.subrange(0, old(buf)@.len() as int) =~= old(buf)@);
        assert(buf@.skip(old(buf)@.len() as int) =~= line@);
        assert(buf@.last() == line@.last());
    }
    n
}

/// Appends the drained contents to the accumulator, exactly and in full;
/// returns how many characters were appended.
fn push_all(buf: &mut String, t: String) -> (n: usize)
    requires
        t@.len() > 0,
    ensures
        final(buf)@ == old(buf)@ + t@,
        n == t@.len(),
        all_read_post(old(buf)@, final(buf)@, Ok(n)),
{
    let n: usize = t.as_str().unicode_len();
    text::append_text(buf, t.as_str());
    proof {
        assert(buf@.subrange(0, old(buf)@.len() as int) =~= old(buf)@);
    }
    n
}

} // verus!
