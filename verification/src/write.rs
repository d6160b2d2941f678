//! The writer: a handle that shows the free bytes of a buffer in place and
//! moves the write cursor over the committed ones when it is released.

use vstd::prelude::*;
use vstd::pervasive::runtime_assert;
use crate::buffer::Buffer;
use crate::error::BufferError;
use crate::model::{BufferView, WriterView};
use crate::storage::Storage;

verus! {

/// A handle that exposes free bytes of a buffer borrowed for `'a` for writing
/// and counts how many of them its user commits.
pub trait BufferWriter<'a>: View<V = WriterView> + Sized {
    /// What the writer has borrowed.
    type Lender: View<V = BufferView>;

    /// The borrow that the writer holds. What the lender is once this borrow
    /// has ended is settled by [`BufferWriter::release`].
    spec fn target(self) -> &'a mut Self::Lender;

    /// The bytes that the writer exposes.
    fn bytes(&self) -> (s: &[u8])
        requires
            self@.wf(),
        ensures
            s@ == self@.exposed(),
    ;

    /// The bytes that the writer exposes, for writing. Whatever is written
    /// replaces the exposed bytes and nothing else; it stays without effect
    /// on the unread bytes unless it is committed.
    fn bytes_mut(&mut self) -> (s: &mut [u8])
        requires
            old(self)@.wf(),
        ensures
            s@ == old(self)@.exposed(),
            final(self)@ == old(self)@.overwritten(final(s)@),
            *final(final(self).target()) == *final(old(self).target()),
    ;

    /// Commits the first `n` exposed bytes: they will join the unread bytes
    /// when the writer is released, and the writer exposes what lies after
    /// them. Reports `NoCapacity`, without any change, when fewer than `n`
    /// bytes are exposed.
    fn commit(&mut self, n: usize) -> (r: Result<(), BufferError>)
        requires
            old(self)@.wf(),
        ensures
            final(self)@.wf(),
            final(self)@ == old(self)@.after_commit(n as nat),
            r is Ok <==> n <= old(self)@.remaining_capacity(),
            r is Err ==> r == Err::<(), BufferError>(BufferError::NoCapacity),
            *final(final(self).target()) == *final(old(self).target()),
    ;

    /// The number of bytes that can still be committed.
    fn remaining_capacity(&self) -> (n: usize)
        requires
            self@.wf(),
        ensures
            n == self@.remaining_capacity(),
    ;

    /// Whether at least one byte can still be committed.
    fn has_remaining_capacity(&self) -> (b: bool)
        requires
            self@.wf(),
        ensures
            b == (self@.remaining_capacity() > 0),
    {
        self.remaining_capacity() > 0
    }

    /// Ends the borrow and moves the write cursor of the lender over the
    /// committed bytes.
    fn release(self)
        requires
            self@.wf(),
        ensures
            final(self.target())@ == self@.released(),
    ;
}

/// The writer of a [`Buffer`].
pub struct Write<'a, S: Storage> {
    buffer: &'a mut Buffer<S>,
    bytes_written: usize,
}

impl<'a, S: Storage> View for Write<'a, S> {
    type V = WriterView;

    closed spec fn view(&self) -> WriterView {
        WriterView { buffer: (*self.buffer)@, committed: self.bytes_written as nat }
    }
}

impl<'a, S: Storage> Write<'a, S> {
    /// Attaches a writer to `buffer` as it stands, without compaction.
    pub fn new(buffer: &'a mut Buffer<S>) -> (w: Self)
        ensures
            w@ == WriterView::attached(old(buffer)@),
            *final(w.target()) == *final(buffer),
    {
        Write { buffer, bytes_written: 0 }
    }

    /// Takes in what an encoder made of the exposed bytes. The number of
    /// bytes that an encoder produced is committed and returned; a failed
    /// encoder, and a number that exceeds the exposed bytes, are reported as
    /// `NoCapacity` and commit nothing.
    pub fn commit_serialized(
        &mut self,
        produced: Result<usize, serde_json_core::ser::Error>,
    ) -> (r: Result<usize, BufferError>)
        requires
            old(self)@.wf(),
        ensures
            final(self)@.wf(),
            *final(final(self).target()) == *final(old(self).target()),
            match produced {
                Ok(n) => {
                    &&& final(self)@ == old(self)@.after_commit(n as nat)
                    &&& r == if n <= old(self)@.remaining_capacity() {
                        Ok::<usize, BufferError>(n)
                    } else {
                        Err::<usize, BufferError>(BufferError::NoCapacity)
                    }
                },
                Err(_) => {
                    &&& final(self)@ == old(self)@
                    &&& r == Err::<usize, BufferError>(BufferError::NoCapacity)
                },
            },
    {
        match produced {
            Ok(n) => match self.commit(n) {
                Ok(()) => Ok(n),
                Err(e) => Err(e),
            },
            Err(_) => Err(BufferError::NoCapacity),
        }
    }
}

impl<'a, S: Storage> BufferWriter<'a> for Write<'a, S> {
    type Lender = Buffer<S>;

    closed spec fn target(self) -> &'a mut Buffer<S> {
        self.buffer
    }

    fn bytes(&self) -> (s: &[u8]) {
        self.buffer.tail(self.bytes_written)
    }

    fn bytes_mut(&mut self) -> (s: &mut [u8]) {
        self.buffer.tail_mut(self.bytes_written)
    }

    fn commit(&mut self, n: usize) -> (r: Result<(), BufferError>) {
        if self.remaining_capacity() < n {
            Err(BufferError::NoCapacity)
        } else {
            proof {
                self.buffer.lemma_capacity_fits();
            }
            self.bytes_written = self.bytes_written + n;
            Ok(())
        }
    }

    fn remaining_capacity(&self) -> (n: usize) {
        self.buffer.capacity() - self.buffer.write_position() - self.bytes_written
    }

    fn release(self) {
        runtime_assert(self.bytes_written <= self.buffer.remaining_capacity());
        self.buffer.advance(self.bytes_written);
    }
}

} // verus!
