//! The reader: a handle that shows the unread bytes of a buffer in place and
//! moves the read cursor when it is released.

use vstd::prelude::*;
use vstd::pervasive::runtime_assert;
use crate::buffer::Buffer;
use crate::error::BufferError;
use crate::model::{BufferView, ReaderView};
use crate::storage::Storage;

verus! {

/// A handle that exposes unread bytes of a buffer borrowed for `'a` and
/// counts how many of them its user declares consumed.
pub trait BufferReader<'a>: View<V = ReaderView> + Sized {
    /// What the reader has borrowed.
    type Lender: View<V = BufferView>;

    /// The borrow that the reader holds. What the lender is once this borrow
    /// has ended is settled by [`BufferReader::release`].
    spec fn target(self) -> &'a mut Self::Lender;

    /// The bytes that the reader exposes.
    fn bytes(&self) -> (s: &[u8])
        requires
            self@.wf(),
        ensures
            s@ == self@.exposed(),
    ;

    /// Declares `n` more of the exposed bytes consumed. The buffer itself
    /// stays untouched until the reader is released.
    fn add_bytes_read(&mut self, n: usize)
        requires
            old(self)@.consumed + n <= usize::MAX,
        ensures
            final(self)@ == old(self)@.declared(n as nat),
            *final(final(self).target()) == *final(old(self).target()),
    ;

    /// Ends the borrow and moves the read cursor of the lender ahead by the
    /// declared total, which may not exceed what was exposed.
    fn release(self)
        requires
            self@.wf(),
            self@.in_bounds(),
        ensures
            final(self.target())@ == self@.released(),
    ;
}

/// The reader of a [`Buffer`].
pub struct Reader<'a, S: Storage> {
    buffer: &'a mut Buffer<S>,
    bytes_read: usize,
    max_bytes: Option<usize>,
}

impl<'a, S: Storage> View for Reader<'a, S> {
    type V = ReaderView;

    closed spec fn view(&self) -> ReaderView {
        ReaderView {
            buffer: (*self.buffer)@,
            consumed: self.bytes_read as nat,
            limit: match self.max_bytes {
                Some(max) => Some(max as nat),
                None => None,
            },
        }
    }
}

impl<'a, S: Storage> Reader<'a, S> {
    /// Opens a reader that exposes all unread bytes of `buf`.
    pub fn new(buf: &'a mut Buffer<S>) -> (r: Self)
        ensures
            r@ == ReaderView::opened(old(buf)@, None),
            *final(r.target()) == *final(buf),
    {
        Reader { buffer: buf, bytes_read: 0, max_bytes: None }
    }

    /// Opens a reader that exposes at most `max_bytes` unread bytes of `buf`.
    pub fn new_with_max(buf: &'a mut Buffer<S>, max_bytes: usize) -> (r: Self)
        ensures
            r@ == ReaderView::opened(old(buf)@, Some(max_bytes as nat)),
            *final(r.target()) == *final(buf),
    {
        Reader { buffer: buf, bytes_read: 0, max_bytes: Some(max_bytes) }
    }

    /// The total of the byte counts declared so far.
    pub fn get_bytes_read(&self) -> (n: usize)
        ensures
            n == self@.consumed,
    {
        self.bytes_read
    }

    /// Takes in what a decoder made of the exposed bytes. A decoded value
    /// comes with the number of bytes it took, which is declared consumed; a
    /// decoder error is passed on and nothing is declared.
    pub fn accept_deserialized<Value>(
        &mut self,
        decoded: Result<(Value, usize), serde_json_core::de::Error>,
    ) -> (r: Result<Value, BufferError>)
        requires
            decoded matches Ok(pair) ==> old(self)@.consumed + pair.1 <= usize::MAX,
        ensures
            *final(final(self).target()) == *final(old(self).target()),
            match decoded {
                Ok(pair) => {
                    &&& r == Ok::<Value, BufferError>(pair.0)
                    &&& final(self)@ == old(self)@.declared(pair.1 as nat)
                },
                Err(e) => {
                    &&& r == Err::<Value, BufferError>(BufferError::JsonDeserialize(e))
                    &&& final(self)@ == old(self)@
                },
            },
    {
        match decoded {
            Ok((value, n)) => {
                self.add_bytes_read(n);
                Ok(value)
            },
            Err(e) => Err(BufferError::JsonDeserialize(e)),
        }
    }
}

impl<'a, S: Storage> BufferReader<'a> for Reader<'a, S> {
    type Lender = Buffer<S>;

    closed spec fn target(self) -> &'a mut Buffer<S> {
        self.buffer
    }

    fn bytes(&self) -> (s: &[u8]) {
        let unread = self.buffer.data();
        match self.max_bytes {
            Some(max) => if max < unread.len() {
                &unread[0..max]
            } else {
                unread
            },
            None => unread,
        }
    }

    fn add_bytes_read(&mut self, n: usize) {
        self.bytes_read = self.bytes_read + n;
    }

    fn release(self) {
        runtime_assert(self.bytes_read <= self.bytes().len());
        self.buffer.skip(self.bytes_read).expect(
            "Reader: bytes_read must not be greater than the bytes skippable",
        );
    }
}

} // verus!
