//! The output channel: the simulated standard output or standard error. The
//! simulated tool writes into it — plain or formatted — and the embedding
//! controller drains it with the `recv` family or inspects it with the
//! non-destructive `peek` family.
//!
//! The try and peek family make a single drain attempt and never wait for
//! data. Acquiring the lock itself may wait briefly, as the underlying lock
//! offers no try-acquire; a caller sees the same nothing-available signal
//! either way, so the two absences stay merged, as they are for the peeks of
//! the real streams.

use vstd::prelude::*;

use crate::buffer::SharedBuffer;
use crate::host;
use crate::text;

verus! {

/// How many times a blocking receive re-attempts its drain before reporting
/// that nothing arrived. Blocking receives busy-poll; a verified loop must
/// name a finite bound, and this one is large enough that exhausting it takes
/// centuries, so in practice a blocking receive waits until data arrives.
const RETRY_BOUND: u64 = u64::MAX;

/// The simulated standard output (or standard error) stream.
pub struct Altout {
    buffer: SharedBuffer,
}

/// A writable guard over an output stream; the counterpart of a locked
/// standard output handle. Each write takes the underlying lock for its own
/// duration, so a guard may be kept around freely and is trivially released
/// on every exit path.
pub struct AltoutLock<'a> {
    buffer: &'a SharedBuffer,
}

impl Altout {
    /// A fresh output channel with an empty buffer.
    pub fn new() -> Altout {
        Altout { buffer: SharedBuffer::new() }
    }

    /// Returns a writable guard over this output stream, which also offers
    /// `write_fmt` and `write_str`.
    pub fn lock(&self) -> AltoutLock<'_> {
        AltoutLock { buffer: &self.buffer }
    }

    /// Writes a pre-built format into the stream. Never reports an error:
    /// writing into an in-memory buffer cannot fail.
    pub fn write_fmt(&mut self, args: core::fmt::Arguments<'_>) -> (r: Result<
        (),
        std::io::Error,
    >)
        ensures
            r is Ok,
    {
        let text = host::render_arguments(args);
        self.buffer.append(text.as_str());
        Ok(())
    }

    /// Does nothing: buffered text is already resident, there is nothing to
    /// flush. Never reports an error.
    pub fn flush(&mut self) -> (r: Result<(), std::io::Error>)
        ensures
            r is Ok,
    {
        Ok(())
    }

    /// Reports false: the simulated stream is never a real terminal.
    pub fn is_terminal(&self) -> (r: bool)
        ensures
            r == false,
    {
        false
    }

    /// Empties the output buffer, discarding whatever it held.
    pub(crate) fn clear(&self) {
        self.buffer.clear();
    }

    /// Receives everything buffered on this stream. Blocks (busy-polls)
    /// while the buffer is empty.
    pub fn recv(&self) -> (r: String) {
        let mut tries: u64 = 0;
        while tries < RETRY_BOUND
            decreases RETRY_BOUND - tries,
        {
            match self.buffer.drain_all() {
                Some(t) => {
                    return t;
                },
                None => {
                    tries = tries + 1;
                },
            }
        }
        String::new()
    }

    /// Tries to receive everything buffered on this stream; signals nothing
    /// available — without waiting for data — when the buffer is empty.
    pub fn try_recv(&self) -> (r: Option<String>)
        ensures
            r matches Some(t) ==> t@.len() > 0,
    {
        self.buffer.drain_all()
    }

    /// Receives one complete line — newline included — from this stream.
    /// Blocks (busy-polls) while no complete line is buffered.
    pub fn recv_line(&self) -> (r: String)
        ensures
            r@.len() > 0 ==> r@.last() == '\n' && text::newline_count(r@) == 1,
    {
        let mut tries: u64 = 0;
        while tries < RETRY_BOUND
            decreases RETRY_BOUND - tries,
        {
            match self.buffer.drain_lines(1) {
                Some(t) => {
                    return t;
                },
                None => {
                    tries = tries + 1;
                },
            }
        }
        String::new()
    }

    /// Tries to receive one complete line — newline included — from this
    /// stream; signals nothing available — without waiting for data — when no
    /// complete line is buffered (a partial line stays for future appends).
    pub fn try_recv_line(&self) -> (r: Option<String>)
        ensures
            r matches Some(t) ==> t@.len() > 0 && t@.last() == '\n' && text::newline_count(t@)
                == 1,
    {
        self.buffer.drain_lines(1)
    }

    /// Receives `cnt` complete lines — newlines included — from this stream;
    /// an empty result for `cnt == 0`. Blocks (busy-polls) while fewer than
    /// `cnt` complete lines are buffered.
    pub fn recv_lines(&self, cnt: usize) -> (r: String)
        ensures
            r@.len() > 0 ==> cnt >= 1 && r@.last() == '\n' && text::newline_count(r@) == cnt,
    {
        if cnt == 0 {
            return String::new();
        }
        let mut tries: u64 = 0;
        while tries < RETRY_BOUND
            invariant
                cnt >= 1,
            decreases RETRY_BOUND - tries,
        {
            match self.buffer.drain_lines(cnt) {
                Some(t) => {
                    return t;
                },
                None => {
                    tries = tries + 1;
                },
            }
        }
        String::new()
    }

    /// Tries to receive `cnt` complete lines from this stream; signals
    /// nothing available — changing nothing, without waiting for data — when
    /// `cnt` is zero or fewer than `cnt` complete lines are buffered.
    pub fn try_recv_lines(&self, cnt: usize) -> (r: Option<String>)
        ensures
            cnt == 0 ==> r is None,
            r matches Some(t) ==> t@.len() > 0 && t@.last() == '\n' && text::newline_count(t@)
                == cnt,
    {
        if cnt == 0 {
            None
        } else {
            self.buffer.drain_lines(cnt)
        }
    }

    /// Reads one complete line from this stream without removing it; signals
    /// nothing available — without waiting for data — when no complete line
    /// is buffered.
    pub fn peek_line(&self) -> (r: Option<String>)
        ensures
            r matches Some(t) ==> t@.len() > 0 && t@.last() == '\n' && text::newline_count(t@)
                == 1,
    {
        self.buffer.peek_lines(1)
    }

    /// Reads `cnt` complete lines from this stream without removing them;
    /// signals nothing available — without waiting for data — when `cnt` is
    /// zero or fewer than `cnt` complete lines are buffered.
    pub fn peek_lines(&self, cnt: usize) -> (r: Option<String>)
        ensures
            cnt == 0 ==> r is None,
            r matches Some(t) ==> t@.len() > 0 && t@.last() == '\n' && text::newline_count(t@)
                == cnt,
    {
        if cnt == 0 {
            None
        } else {
            self.buffer.peek_lines(cnt)
        }
    }
}

impl Default for Altout {
    /// A fresh output channel; the same as `Altout::new`.
    fn default() -> Altout {
        Altout::new()
    }
}

impl<'a> AltoutLock<'a> {
    /// Writes a pre-built format into the stream. Never reports an error:
    /// writing into an in-memory buffer cannot fail.
    pub fn write_fmt(&mut self, args: core::fmt::Arguments<'_>) -> (r: Result<
        (),
        std::io::Error,
    >)
        ensures
            r is Ok,
    {
        let text = host::render_arguments(args);
        self.buffer.append(text.as_str());
        Ok(())
    }

    /// Writes `text` verbatim into the stream, as one atomic operation.
    pub fn write_str(&mut self, text: &str) {
        self.buffer.append(text);
    }
}

} // verus!
