//! One request/response transaction against the external `postgres
//! --wal-redo` child. The outgoing messages are pre-assembled into a
//! single buffer; the transaction then multiplexes the child's three
//! pipes with a level-triggered readiness poll until 8192 response
//! bytes have arrived or the 20-second deadline passes. This module
//! holds the transaction's state and every decision of that loop; the
//! embedding application performs the actual poll, reads and writes and
//! reports their outcomes back.

use vstd::prelude::*;

use crate::codec::{transaction_bytes, wf_wire_records, BufferTag, build_transaction_buf};
use crate::page::{zero_page, zeroed_page, BLCKSZ};
use crate::record::{Lsn, WalRecord};

verus! {

/// The standard pipes of the external process.
#[derive(Debug, PartialEq, Eq, Clone, Copy, Structural)]
pub enum PipeId {
    Stdin,
    Stdout,
    Stderr,
}

/// The ways a transaction against the external process fails: the
/// deadline passed with no pipe ready, a pipe was hung up before the
/// transaction was complete, or an underlying read, write or poll
/// failed.
#[derive(Debug, PartialEq, Eq, Clone, Copy, Structural)]
pub enum IoErrorCause {
    Timeout,
    BrokenPipe(PipeId),
    Other,
}

/// What one readiness poll over the three pipes reported. `timeout`
/// means no descriptor became ready before the deadline. For stdout and
/// stderr, `ready` is readable-or-error; for stdin it is
/// writable-or-error: an erroring pipe is handled by attempting the
/// read or write and surfacing its failure.
#[derive(Debug, PartialEq, Eq, Clone, Copy, Structural)]
pub struct PollOutcome {
    pub timeout: bool,
    pub stdout_ready: bool,
    pub stdout_hup: bool,
    pub stderr_ready: bool,
    pub stderr_hup: bool,
    pub stdin_ready: bool,
    pub stdin_hup: bool,
}

/// How a readiness cycle begins: fail the transaction, drain stderr
/// before anything else, or go on to stdin and stdout.
#[derive(Debug, PartialEq, Eq, Clone, Copy, Structural)]
pub enum PollDecision {
    Fail(IoErrorCause),
    DrainStderr,
    HandleStreams,
}

/// What to do with stdin this cycle.
#[derive(Debug, PartialEq, Eq, Clone, Copy, Structural)]
pub enum StdinDecision {
    Write,
    Fail(IoErrorCause),
    Idle,
}

/// What to do with stdout this cycle.
#[derive(Debug, PartialEq, Eq, Clone, Copy, Structural)]
pub enum StdoutDecision {
    Read,
    Fail(IoErrorCause),
    Idle,
}

/// The deadline for one whole transaction, in milliseconds.
pub const TIMEOUT_MS: u64 = 20000;

/// One redo transaction against the external process: the pre-assembled
/// outgoing bytes with a write cursor into them, and the 8192-byte
/// response buffer with a read cursor. Both cursors only advance; the
/// transaction is complete when the response buffer is full.
pub struct RedoTransaction {
    pub writebuf: Vec<u8>,
    pub nwrite: usize,
    pub resultbuf: Vec<u8>,
    pub nresult: usize,
}

impl RedoTransaction {
    /// The cursors lie within their buffers and the response buffer has
    /// page size.
    pub open spec fn wf(&self) -> bool {
        &&& self.nwrite <= self.writebuf@.len()
        &&& self.resultbuf@.len() == BLCKSZ
        &&& self.nresult <= BLCKSZ
    }

    /// Assemble the transaction for one request: `B`, the base image as
    /// `P` if one is given, one `A` per record, then `G`; nothing
    /// written or read yet.
    pub fn new(
        tag: BufferTag,
        base_img: &Option<Vec<u8>>,
        records: &Vec<(Lsn, WalRecord)>,
    ) -> (s: Self)
        requires
            (base_img matches Some(b) ==> b@.len() == BLCKSZ),
            wf_wire_records(records@),
        ensures
            s.wf(),
            s.writebuf@ == transaction_bytes(tag, crate::page::base_view(base_img), records@),
            s.nwrite == 0,
            s.nresult == 0,
            s.resultbuf@ == zero_page(),
    {
        RedoTransaction {
            writebuf: build_transaction_buf(tag, base_img, records),
            nwrite: 0,
            resultbuf: zeroed_page(),
            nresult: 0,
        }
    }

    /// Whether outgoing bytes remain; stdin is watched only while this
    /// holds.
    pub fn wants_write(&self) -> (r: bool)
        ensures
            r == (self.nwrite < self.writebuf@.len()),
    {
        self.nwrite < self.writebuf.len()
    }

    /// Whether the full 8192-byte response has arrived.
    pub fn done(&self) -> (r: bool)
        ensures
            r == (self.nresult == BLCKSZ),
    {
        self.nresult == BLCKSZ
    }

    /// Record that `n` more outgoing bytes were written to stdin.
    pub fn note_wrote(&mut self, n: usize)
        requires
            old(self).wf(),
            old(self).nwrite + n <= old(self).writebuf@.len(),
        ensures
            final(self).wf(),
            final(self).nwrite == old(self).nwrite + n,
            final(self).writebuf == old(self).writebuf,
            final(self).resultbuf == old(self).resultbuf,
            final(self).nresult == old(self).nresult,
    {
        let cap = self.writebuf.len();
        assert(self.nwrite + n <= cap);
        self.nwrite = self.nwrite + n;
    }

    /// Record a chunk read from stdout: it lands at the read cursor.
    pub fn note_read(&mut self, chunk: &Vec<u8>)
        requires
            old(self).wf(),
            old(self).nresult + chunk@.len() <= BLCKSZ,
        ensures
            final(self).wf(),
            final(self).nresult == old(self).nresult + chunk@.len(),
            final(self).resultbuf@ == old(self).resultbuf@.subrange(
                0,
                old(self).nresult as int,
            ) + chunk@ + old(self).resultbuf@.skip(old(self).nresult + chunk@.len()),
            final(self).writebuf == old(self).writebuf,
            final(self).nwrite == old(self).nwrite,
    {
        let n = chunk.len();
        let mut i: usize = 0;
        while i < n
            invariant
                i <= n,
                n == chunk@.len(),
                self.nresult == old(self).nresult,
                self.nwrite == old(self).nwrite,
                self.writebuf == old(self).writebuf,
                self.nresult + n <= BLCKSZ,
                self.resultbuf@.len() == BLCKSZ,
                forall|j: int|
                    0 <= j < BLCKSZ && !(self.nresult <= j < self.nresult + i)
                        ==> self.resultbuf@[j] == old(self).resultbuf@[j],
                forall|j: int|
                    0 <= j < i ==> self.resultbuf@[self.nresult + j] == chunk@[j],
            decreases n - i,
        {
            let pos = self.nresult + i;
            self.resultbuf.set(pos, chunk[i]);
            i = i + 1;
        }
        self.nresult = self.nresult + n;
        proof {
            assert(self.resultbuf@ =~= old(self).resultbuf@.subrange(
                0,
                old(self).nresult as int,
            ) + chunk@ + old(self).resultbuf@.skip(old(self).nresult + chunk@.len()));
        }
    }

    /// The finished response page.
    pub fn into_page(self) -> (r: Vec<u8>)
        requires
            self.wf(),
            self.nresult == BLCKSZ,
        ensures
            r@ == self.resultbuf@,
            r@.len() == BLCKSZ,
    {
        self.resultbuf
    }

    /// How a cycle begins, given what the poll reported. The deadline
    /// passing fails the transaction. Otherwise stderr is drained with
    /// priority, so a failing child's diagnostics are captured before
    /// its pipe closures are acted on; a hung-up stderr with nothing to
    /// read is a failure. Only then are stdin and stdout considered.
    pub fn poll_decision(&self, ev: &PollOutcome) -> (d: PollDecision)
        ensures
            d == (if ev.timeout {
                PollDecision::Fail(IoErrorCause::Timeout)
            } else if ev.stderr_ready {
                PollDecision::DrainStderr
            } else if ev.stderr_hup {
                PollDecision::Fail(IoErrorCause::BrokenPipe(PipeId::Stderr))
            } else {
                PollDecision::HandleStreams
            }),
    {
        if ev.timeout {
            PollDecision::Fail(IoErrorCause::Timeout)
        } else if ev.stderr_ready {
            PollDecision::DrainStderr
        } else if ev.stderr_hup {
            PollDecision::Fail(IoErrorCause::BrokenPipe(PipeId::Stderr))
        } else {
            PollDecision::HandleStreams
        }
    }

    /// What to do with stdin: while outgoing bytes remain, write when
    /// the pipe can take data, and fail if the child hung it up with
    /// bytes still unwritten; once everything is written, stdin is left
    /// alone.
    pub fn stdin_decision(&self, ev: &PollOutcome) -> (d: StdinDecision)
        ensures
            d == (if self.nwrite < self.writebuf@.len() {
                if ev.stdin_ready {
                    StdinDecision::Write
                } else if ev.stdin_hup {
                    StdinDecision::Fail(IoErrorCause::BrokenPipe(PipeId::Stdin))
                } else {
                    StdinDecision::Idle
                }
            } else {
                StdinDecision::Idle
            }),
    {
        if self.nwrite < self.writebuf.len() {
            if ev.stdin_ready {
                StdinDecision::Write
            } else if ev.stdin_hup {
                StdinDecision::Fail(IoErrorCause::BrokenPipe(PipeId::Stdin))
            } else {
                StdinDecision::Idle
            }
        } else {
            StdinDecision::Idle
        }
    }

    /// What to do with stdout: read when data is available, and fail if
    /// the child hung it up before the full page arrived.
    pub fn stdout_decision(&self, ev: &PollOutcome) -> (d: StdoutDecision)
        ensures
            d == (if ev.stdout_ready {
                StdoutDecision::Read
            } else if ev.stdout_hup {
                StdoutDecision::Fail(IoErrorCause::BrokenPipe(PipeId::Stdout))
            } else {
                StdoutDecision::Idle
            }),
    {
        if ev.stdout_ready {
            StdoutDecision::Read
        } else if ev.stdout_hup {
            StdoutDecision::Fail(IoErrorCause::BrokenPipe(PipeId::Stdout))
        } else {
            StdoutDecision::Idle
        }
    }
}

} // verus!
