//! The stream set: one input channel and two output channels (the simulated
//! standard output and standard error) behind a single cloneable handle with
//! shared, reference-counted ownership. Every clone observes the same three
//! buffers, so the simulated tool and the controller can hold independent
//! handles on different threads; the buffers live until the last handle is
//! dropped.
//!
//! The try and peek pass-throughs make a single drain attempt and never wait
//! for data; acquiring a buffer's lock itself may wait briefly, as the
//! underlying lock offers no try-acquire, and a caller sees the same
//! nothing-available signal either way.

use std::sync::Arc;

use vstd::prelude::*;

use crate::input::Altin;
use crate::output::Altout;
use crate::output::AltoutLock;
use crate::text;

verus! {

/// Simulates a program's standard input, output and error streams.
#[derive(Clone)]
pub struct Altio {
    streams: Arc<(Altin, Altout, Altout)>,
}

impl Altio {
    /// A fresh stream set: three empty buffers under one shareable handle.
    pub fn new() -> Altio {
        Altio { streams: Arc::new((Altin::new(), Altout::new(), Altout::new())) }
    }

    /// The simulated standard input.
    pub fn input(&self) -> &Altin {
        &self.streams.0
    }

    /// A writable guard over the simulated standard output.
    pub fn out(&self) -> AltoutLock<'_> {
        self.streams.1.lock()
    }

    /// A writable guard over the simulated standard error.
    pub fn err(&self) -> AltoutLock<'_> {
        self.streams.2.lock()
    }

    /// Empties all three buffers, discarding whatever they held — the
    /// explicit reset operation for reuse between driver runs; buffers are
    /// never cleared implicitly.
    pub fn clear(&self) {
        self.streams.0.clear();
        self.streams.1.clear();
        self.streams.2.clear();
    }

    /// Sends text to the input stream, without an additional newline.
    pub fn send(&self, text: &str) {
        self.streams.0.send(text)
    }

    /// Sends text to the input stream followed by a single newline, as one
    /// atomic operation.
    pub fn send_line(&self, text: &str) {
        self.streams.0.send_line(text)
    }

    /// Receives everything buffered on the output stream. Blocks
    /// (busy-polls) while that buffer is empty.
    pub fn recv(&self) -> (r: String) {
        self.streams.1.recv()
    }

    /// Tries to receive everything buffered on the output stream; signals
    /// nothing available — without waiting for data — when that buffer is
    /// empty.
    pub fn try_recv(&self) -> (r: Option<String>)
        ensures
            r matches Some(t) ==> t@.len() > 0,
    {
        self.streams.1.try_recv()
    }

    /// Receives one complete line — newline included — from the output
    /// stream. Blocks (busy-polls) while no complete line is buffered there.
    pub fn recv_line(&self) -> (r: String)
        ensures
            r@.len() > 0 ==> r@.last() == '\n' && text::newline_count(r@) == 1,
    {
        self.streams.1.recv_line()
    }

    /// Tries to receive one complete line from the output stream; signals
    /// nothing available — without waiting for data — when no complete line
    /// is buffered there.
    pub fn try_recv_line(&self) -> (r: Option<String>)
        ensures
            r matches Some(t) ==> t@.len() > 0 && t@.last() == '\n' && text::newline_count(t@)
                == 1,
    {
        self.streams.1.try_recv_line()
    }

    /// Receives `cnt` complete lines from the output stream; an empty result
    /// for `cnt == 0`. Blocks (busy-polls) while fewer than `cnt` complete
    /// lines are buffered there.
    pub fn recv_lines(&self, cnt: usize) -> (r: String)
        ensures
            r@.len() > 0 ==> cnt >= 1 && r@.last() == '\n' && text::newline_count(r@) == cnt,
    {
        self.streams.1.recv_lines(cnt)
    }

    /// Tries to receive `cnt` complete lines from the output stream; signals
    /// nothing available — changing nothing, without waiting for data — when
    /// `cnt` is zero or fewer than `cnt` complete lines are buffered there.
    pub fn try_recv_lines(&self, cnt: usize) -> (r: Option<String>)
        ensures
            cnt == 0 ==> r is None,
            r matches Some(t) ==> t@.len() > 0 && t@.last() == '\n' && text::newline_count(t@)
                == cnt,
    {
        self.streams.1.try_recv_lines(cnt)
    }

    /// Reads one complete line from the output stream without removing it;
    /// signals nothing available — without waiting for data — when no
    /// complete line is buffered there.
    pub fn peek_line(&self) -> (r: Option<String>)
        ensures
            r matches Some(t) ==> t@.len() > 0 && t@.last() == '\n' && text::newline_count(t@)
                == 1,
    {
        self.streams.1.peek_line()
    }

    /// Reads `cnt` complete lines from the output stream without removing
    /// them; signals nothing available — without waiting for data — when
    /// `cnt` is zero or fewer than `cnt` complete lines are buffered there.
    pub fn peek_lines(&self, cnt: usize) -> (r: Option<String>)
        ensures
            cnt == 0 ==> r is None,
            r matches Some(t) ==> t@.len() > 0 && t@.last() == '\n' && text::newline_count(t@)
                == cnt,
    {
        self.streams.1.peek_lines(cnt)
    }

    /// Receives everything buffered on the error stream. Blocks
    /// (busy-polls) while that buffer is empty.
    pub fn recv_err(&self) -> (r: String) {
        self.streams.2.recv()
    }

    /// Tries to receive everything buffered on the error stream; signals
    /// nothing available — without waiting for data — when that buffer is
    /// empty.
    pub fn try_recv_err(&self) -> (r: Option<String>)
        ensures
            r matches Some(t) ==> t@.len() > 0,
    {
        self.streams.2.try_recv()
    }

    /// Receives one complete line — newline included — from the error
    /// stream. Blocks (busy-polls) while no complete line is buffered there.
    pub fn recv_err_line(&self) -> (r: String)
        ensures
            r@.len() > 0 ==> r@.last() == '\n' && text::newline_count(r@) == 1,
    {
        self.streams.2.recv_line()
    }

    /// Tries to receive one complete line from the error stream; signals
    /// nothing available — without waiting for data — when no complete line
    /// is buffered there.
    pub fn try_recv_err_line(&self) -> (r: Option<String>)
        ensures
            r matches Some(t) ==> t@.len() > 0 && t@.last() == '\n' && text::newline_count(t@)
                == 1,
    {
        self.streams.2.try_recv_line()
    }

    /// Receives `cnt` complete lines from the error stream; an empty result
    /// for `cnt == 0`. Blocks (busy-polls) while fewer than `cnt` complete
    /// lines are buffered there.
    pub fn recv_err_lines(&self, cnt: usize) -> (r: String)
        ensures
            r@.len() > 0 ==> cnt >= 1 && r@.last() == '\n' && text::newline_count(r@) == cnt,
    {
        self.streams.2.recv_lines(cnt)
    }

    /// Tries to receive `cnt` complete lines from the error stream; signals
    /// nothing available — changing nothing, without waiting for data — when
    /// `cnt` is zero or fewer than `cnt` complete lines are buffered there.
    pub fn try_recv_err_lines(&self, cnt: usize) -> (r: Option<String>)
        ensures
            cnt == 0 ==> r is None,
            r matches Some(t) ==> t@.len() > 0 && t@.last() == '\n' && text::newline_count(t@)
                == cnt,
    {
        self.streams.2.try_recv_lines(cnt)
    }

    /// Reads one complete line from the error stream without removing it;
    /// signals nothing available — without waiting for data — when no
    /// complete line is buffered there.
    pub fn peek_err_line(&self) -> (r: Option<String>)
        ensures
            r matches Some(t) ==> t@.len() > 0 && t@.last() == '\n' && text::newline_count(t@)
                == 1,
    {
        self.streams.2.peek_line()
    }

    /// Reads `cnt` complete lines from the error stream without removing
    /// them; signals nothing available — without waiting for data — when
    /// `cnt` is zero or fewer than `cnt` complete lines are buffered there.
    pub fn peek_err_lines(&self, cnt: usize) -> (r: Option<String>)
        ensures
            cnt == 0 ==> r is None,
            r matches Some(t) ==> t@.len() > 0 && t@.last() == '\n' && text::newline_count(t@)
                == cnt,
    {
        self.streams.2.peek_lines(cnt)
    }
}

impl Default for Altio {
    /// A fresh stream set; the same as `Altio::new`.
    fn default() -> Altio {
        Altio::new()
    }
}

} // verus!
