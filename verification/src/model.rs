//! The mathematical model of a buffer and of its two handles.
//!
//! A buffer is a byte sequence of fixed length with two cursors. The bytes
//! before the read cursor are dead, those between the cursors are unread, and
//! those from the write cursor on are free. Every operation of the
//! library is defined here as a function from one such state to the next, and
//! the contracts of the executable code refer to these functions.

use vstd::prelude::*;
use crate::error::BufferError;

verus! {

/// The state of a buffer: what its storage holds and where its cursors stand.
pub struct BufferView {
    /// The whole backing store, dead and free bytes included.
    pub storage: Seq<u8>,
    /// Index of the next byte to be read.
    pub read: nat,
    /// Index of the next byte to be written.
    pub write: nat,
}

impl BufferView {
    /// The cursor invariant: the read cursor does not pass the write cursor,
    /// and the write cursor does not pass the end of the storage.
    pub open spec fn wf(self) -> bool {
        self.read <= self.write <= self.storage.len()
    }

    /// A buffer that was just created over `storage`.
    pub open spec fn fresh(storage: Seq<u8>) -> BufferView {
        BufferView { storage, read: 0, write: 0 }
    }

    /// The length of the storage.
    pub open spec fn capacity(self) -> nat {
        self.storage.len()
    }

    /// The number of free bytes, from the write cursor to the end.
    pub open spec fn remaining_capacity(self) -> nat {
        (self.storage.len() - self.write) as nat
    }

    /// The number of unread bytes.
    pub open spec fn remaining_len(self) -> nat {
        (self.write - self.read) as nat
    }

    /// The unread bytes, oldest first.
    pub open spec fn data(self) -> Seq<u8> {
        self.storage.subrange(self.read as int, self.write as int)
    }

    /// Compaction: the storage is rotated so that the unread bytes start at
    /// index 0, and both cursors move down by the old read cursor.
    pub open spec fn shifted(self) -> BufferView {
        BufferView {
            storage: self.storage.subrange(self.read as int, self.storage.len() as int)
                + self.storage.subrange(0, self.read as int),
            read: 0,
            write: (self.write - self.read) as nat,
        }
    }

    /// The state once room for `wanted` bytes has been sought: compaction
    /// takes place when fewer than `wanted` bytes are free and dead bytes
    /// exist, and not otherwise.
    pub open spec fn compacted_for(self, wanted: nat) -> BufferView {
        if self.remaining_capacity() < wanted && self.read > 0 {
            self.shifted()
        } else {
            self
        }
    }

    /// `bytes` stored at the write cursor, which moves past them.
    pub open spec fn appended(self, bytes: Seq<u8>) -> BufferView {
        BufferView {
            storage: self.storage.subrange(0, self.write as int) + bytes + self.storage.subrange(
                (self.write + bytes.len()) as int,
                self.storage.len() as int,
            ),
            read: self.read,
            write: self.write + bytes.len(),
        }
    }

    /// The read cursor moved `n` bytes ahead.
    pub open spec fn skipped(self, n: nat) -> BufferView {
        BufferView { storage: self.storage, read: self.read + n, write: self.write }
    }

    /// Both cursors back at zero; the storage keeps its bytes.
    pub open spec fn cleared(self) -> BufferView {
        BufferView { storage: self.storage, read: 0, write: 0 }
    }

    /// The write cursor moved `n` bytes ahead, over bytes that thereby
    /// become unread bytes.
    pub open spec fn advanced(self, n: nat) -> BufferView {
        BufferView { storage: self.storage, read: self.read, write: self.write + n }
    }

    /// The bytes from `skip` bytes past the write cursor to the end of the
    /// storage replaced by `bytes`; nothing else changes.
    pub open spec fn with_tail(self, skip: nat, bytes: Seq<u8>) -> BufferView {
        BufferView {
            storage: self.storage.subrange(0, (self.write + skip) as int) + bytes,
            read: self.read,
            write: self.write,
        }
    }

    /// What a greedy write of `len` bytes reports: the number of bytes
    /// stored, or why none were.
    pub open spec fn write_result(self, len: nat) -> Result<nat, BufferError> {
        let room = self.compacted_for(1).remaining_capacity();
        if len == 0 {
            Err(BufferError::ProvidedSliceEmpty)
        } else if room == 0 {
            Err(BufferError::NoCapacity)
        } else if len <= room {
            Ok(len)
        } else {
            Ok(room)
        }
    }

    /// The state after a greedy write of `src`: as many leading bytes of
    /// `src` as fit are appended, after compaction if no byte was free.
    pub open spec fn after_write(self, src: Seq<u8>) -> BufferView {
        match self.write_result(src.len()) {
            Ok(n) => self.compacted_for(1).appended(src.take(n as int)),
            Err(_) => self,
        }
    }

    /// What a greedy read into `len` bytes reports: the number of bytes
    /// handed out, or why none were.
    pub open spec fn read_result(self, len: nat) -> Result<nat, BufferError> {
        if len == 0 {
            Err(BufferError::ProvidedSliceEmpty)
        } else if self.remaining_len() == 0 {
            Err(BufferError::NoData)
        } else if len <= self.remaining_len() {
            Ok(len)
        } else {
            Ok(self.remaining_len())
        }
    }

    /// The state after a greedy read into `len` bytes.
    pub open spec fn after_read(self, len: nat) -> BufferView {
        match self.read_result(len) {
            Ok(n) => self.skipped(n),
            Err(_) => self,
        }
    }

    /// Whether `len` more bytes fit beside the unread ones, if need be after
    /// compaction.
    pub open spec fn fits(self, len: nat) -> bool {
        self.remaining_len() + len <= self.capacity()
    }

    /// The state after an all-or-nothing write of `src`: if `src` fits, room
    /// is sought and `src` is appended whole; if not, nothing changes.
    pub open spec fn after_push(self, src: Seq<u8>) -> BufferView {
        if self.fits(src.len()) {
            self.compacted_for(src.len()).appended(src)
        } else {
            self
        }
    }

    /// The state after an attempt to skip `n` unread bytes.
    pub open spec fn after_skip(self, n: nat) -> BufferView {
        if n <= self.remaining_len() {
            self.skipped(n)
        } else {
            self
        }
    }
}

/// One use of a buffer through its interface, with what the use is given.
pub enum Step {
    /// Both cursors are put back to zero.
    Reset,
    /// The buffer is compacted.
    Shift,
    /// Room for one byte is sought.
    EnsureRemainingCapacity,
    /// A greedy write of `src`.
    Write { src: Seq<u8> },
    /// A greedy read into `len` bytes.
    Read { len: nat },
    /// An all-or-nothing write of `src`.
    Push { src: Seq<u8> },
    /// An attempt to skip `n` bytes.
    Skip { n: nat },
    /// A reader with this limit is opened and released after `consumed`
    /// bytes were declared.
    Reading { limit: Option<nat>, consumed: nat },
    /// A writer is opened, after compaction if `compact` is set. Its user
    /// leaves `written` in the bytes it exposes and commits `committed`
    /// bytes in all before the writer is released.
    Writing { compact: bool, written: Seq<u8>, committed: nat },
}

impl BufferView {
    /// The state after `step`. A step that the interface does not admit in
    /// this state (a reader released out of bounds, a writer whose exposed
    /// bytes changed in number) is no step.
    pub open spec fn after(self, step: Step) -> BufferView {
        match step {
            Step::Reset => self.cleared(),
            Step::Shift => self.shifted(),
            Step::EnsureRemainingCapacity => self.compacted_for(1),
            Step::Write { src } => self.after_write(src),
            Step::Read { len } => self.after_read(len),
            Step::Push { src } => self.after_push(src),
            Step::Skip { n } => self.after_skip(n),
            Step::Reading { limit, consumed } => {
                let reader = ReaderView::opened(self, limit).declared(consumed);
                if reader.in_bounds() {
                    reader.released()
                } else {
                    self
                }
            },
            Step::Writing { compact, written, committed } => {
                let writer = if compact {
                    WriterView::opened(self)
                } else {
                    WriterView::attached(self)
                };
                if written.len() == writer.exposed().len() {
                    writer.overwritten(written).after_commit(committed).released()
                } else {
                    self
                }
            },
        }
    }

    /// The state after `steps`, taken in order.
    pub open spec fn after_all(self, steps: Seq<Step>) -> BufferView
        decreases steps.len(),
    {
        if steps.len() == 0 {
            self
        } else {
            self.after_all(steps.drop_last()).after(steps.last())
        }
    }
}

/// The state of a reader: the buffer it borrowed, how many bytes its user has
/// declared consumed, and the cap on what it exposes, if any.
pub struct ReaderView {
    /// The borrowed buffer; a reader never changes it before its release.
    pub buffer: BufferView,
    /// The total of the declared byte counts.
    pub consumed: nat,
    /// The largest number of unread bytes that the reader shows.
    pub limit: Option<nat>,
}

impl ReaderView {
    /// A reader that was just opened on `buffer`.
    pub open spec fn opened(buffer: BufferView, limit: Option<nat>) -> ReaderView {
        ReaderView { buffer, consumed: 0, limit }
    }

    /// The borrowed buffer satisfies the cursor invariant.
    pub open spec fn wf(self) -> bool {
        self.buffer.wf()
    }

    /// The bytes that the reader shows: the unread bytes of the buffer, cut
    /// off after `limit` bytes where a limit is set.
    pub open spec fn exposed(self) -> Seq<u8> {
        match self.limit {
            Some(max) => if max < self.buffer.data().len() {
                self.buffer.data().take(max as int)
            } else {
                self.buffer.data()
            },
            None => self.buffer.data(),
        }
    }

    /// The declared total does not exceed what the reader shows. A reader
    /// may only be released in this state.
    pub open spec fn in_bounds(self) -> bool {
        self.consumed <= self.exposed().len()
    }

    /// `n` more bytes declared consumed.
    pub open spec fn declared(self, n: nat) -> ReaderView {
        ReaderView { buffer: self.buffer, consumed: self.consumed + n, limit: self.limit }
    }

    /// The buffer as the release of the reader leaves it.
    pub open spec fn released(self) -> BufferView {
        self.buffer.skipped(self.consumed)
    }
}

/// The state of a writer: the buffer it borrowed and how many bytes its user
/// has committed so far.
pub struct WriterView {
    /// The borrowed buffer. Its write cursor stays where it was when the
    /// writer was made; only bytes after the committed ones change.
    pub buffer: BufferView,
    /// The total of the committed byte counts.
    pub committed: nat,
}

impl WriterView {
    /// A writer that was just attached to `buffer` as it stands.
    pub open spec fn attached(buffer: BufferView) -> WriterView {
        WriterView { buffer, committed: 0 }
    }

    /// A writer that was just created on `buffer`: the buffer is compacted
    /// first.
    pub open spec fn opened(buffer: BufferView) -> WriterView {
        WriterView::attached(buffer.shifted())
    }

    /// The borrowed buffer satisfies the cursor invariant, and the committed
    /// bytes fit into its free space.
    pub open spec fn wf(self) -> bool {
        &&& self.buffer.wf()
        &&& self.buffer.write + self.committed <= self.buffer.capacity()
    }

    /// Index in the storage of the first byte that the writer exposes.
    pub open spec fn offset(self) -> nat {
        self.buffer.write + self.committed
    }

    /// The number of bytes that can still be committed.
    pub open spec fn remaining_capacity(self) -> nat {
        (self.buffer.capacity() - self.offset()) as nat
    }

    /// The bytes that the writer exposes: the free bytes after the
    /// committed ones.
    pub open spec fn exposed(self) -> Seq<u8> {
        self.buffer.storage.subrange(self.offset() as int, self.buffer.storage.len() as int)
    }

    /// The exposed bytes replaced by `bytes`; nothing else changes.
    pub open spec fn overwritten(self, bytes: Seq<u8>) -> WriterView {
        WriterView { buffer: self.buffer.with_tail(self.committed, bytes), committed: self.committed }
    }

    /// The state after an attempt to commit `n` bytes.
    pub open spec fn after_commit(self, n: nat) -> WriterView {
        if n <= self.remaining_capacity() {
            WriterView { buffer: self.buffer, committed: self.committed + n }
        } else {
            self
        }
    }

    /// The buffer as the release of the writer leaves it: the committed
    /// bytes have joined the unread ones.
    pub open spec fn released(self) -> BufferView {
        self.buffer.advanced(self.committed)
    }
}

} // verus!
