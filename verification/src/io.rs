//! The rule by which a bulk transfer is reported to a blocking I/O interface:
//! a request for zero bytes succeeds with zero bytes, a buffer that can take
//! or give nothing asks the caller to try again, and nothing else can happen.

use vstd::prelude::*;
use crate::buffer::Buffer;
use crate::error::BufferError;
use crate::storage::Storage;

verus! {

/// What a blocking I/O interface is told about one transfer.
#[derive(Debug, PartialEq, Eq, Clone, Copy, Structural)]
pub enum IoStatus {
    /// This many bytes were moved; zero for an empty request.
    Transferred(usize),
    /// No byte could be moved now; the request may be repeated later.
    WouldBlock,
}

impl IoStatus {
    /// The status that stands for the outcome of a greedy write. No status
    /// stands for an error that a write does not report.
    pub open spec fn of_write(outcome: Result<nat, BufferError>) -> Option<IoStatus> {
        match outcome {
            Ok(n) => Some(IoStatus::Transferred(n as usize)),
            Err(BufferError::ProvidedSliceEmpty) => Some(IoStatus::Transferred(0)),
            Err(BufferError::NoCapacity) => Some(IoStatus::WouldBlock),
            Err(_) => None,
        }
    }

    /// The status that stands for the outcome of a greedy read. No status
    /// stands for an error that a read does not report.
    pub open spec fn of_read(outcome: Result<nat, BufferError>) -> Option<IoStatus> {
        match outcome {
            Ok(n) => Some(IoStatus::Transferred(n as usize)),
            Err(BufferError::ProvidedSliceEmpty) => Some(IoStatus::Transferred(0)),
            Err(BufferError::NoData) => Some(IoStatus::WouldBlock),
            Err(_) => None,
        }
    }
}

impl<S: Storage> Buffer<S> {
    /// Greedy write for a blocking I/O interface. An empty `buf` transfers
    /// zero bytes; a buffer without room, even after compaction, would
    /// block. A write has no other outcome.
    pub fn write_nonblocking(&mut self, buf: &[u8]) -> (st: IoStatus)
        requires
            old(self).wf(),
        ensures
            final(self).wf(),
            final(self)@ == old(self)@.after_write(buf@),
            Some(st) == IoStatus::of_write(old(self)@.write_result(buf@.len())),
            st is WouldBlock <==> buf@.len() > 0 && old(self)@.read == 0
                && old(self)@.write == old(self)@.capacity(),
    {
        match self.write_base(buf) {
            Ok(n) => IoStatus::Transferred(n),
            Err(BufferError::ProvidedSliceEmpty) => IoStatus::Transferred(0),
            Err(BufferError::NoCapacity) => IoStatus::WouldBlock,
            Err(_) => unreached(),
        }
    }

    /// Greedy read for a blocking I/O interface. An empty `buf` transfers
    /// zero bytes; a buffer without unread bytes would block. A read has no
    /// other outcome.
    pub fn read_nonblocking(&mut self, buf: &mut [u8]) -> (st: IoStatus)
        requires
            old(self).wf(),
        ensures
            final(self).wf(),
            final(self)@ == old(self)@.after_read(old(buf)@.len()),
            Some(st) == IoStatus::of_read(old(self)@.read_result(old(buf)@.len())),
            st is WouldBlock <==> old(buf)@.len() > 0 && old(self)@.remaining_len() == 0,
            match st {
                IoStatus::Transferred(n) => final(buf)@
                    == old(self)@.data().take(n as int) + old(buf)@.skip(n as int),
                IoStatus::WouldBlock => final(buf)@ == old(buf)@,
            },
    {
        match self.read_base(buf) {
            Ok(n) => IoStatus::Transferred(n),
            Err(BufferError::ProvidedSliceEmpty) => IoStatus::Transferred(0),
            Err(BufferError::NoData) => IoStatus::WouldBlock,
            Err(_) => unreached(),
        }
    }
}

} // verus!
