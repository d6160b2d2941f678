//! The buffer itself: storage, two cursors, and the bulk operations on them.

use vstd::prelude::*;
use crate::error::BufferError;
use crate::model::{BufferView, ReaderView, WriterView};
use crate::read::{BufferReader, Reader};
use crate::storage::Storage;
use crate::write::{BufferWriter, Write};

verus! {

/// A byte buffer of fixed capacity over a backing store of type `S`.
///
/// Bytes are written at the write cursor and read at the read cursor, and
/// either cursor moves past the bytes it has handled. The space before the
/// read cursor is reclaimed by [`Buffer::shift`].
#[derive(Debug)]
pub struct Buffer<S: Storage> {
    source: S,
    write_position: usize,
    read_position: usize,
}

impl<S: Storage> View for Buffer<S> {
    type V = BufferView;

    closed spec fn view(&self) -> BufferView {
        BufferView {
            storage: self.source.bytes(),
            read: self.read_position as nat,
            write: self.write_position as nat,
        }
    }
}

/// Something that lends itself, for the lifetime `'a`, to one reader or one
/// writer at a time.
pub trait ReadWrite<'a>: View<V = BufferView> + Sized {
    /// The reader that is handed out.
    type Reader: BufferReader<'a, Lender = Self>;

    /// The writer that is handed out.
    type Writer: BufferWriter<'a, Lender = Self>;

    /// Opens a reader on all unread bytes.
    fn create_reader(&'a mut self) -> (r: Self::Reader)
        ensures
            r@ == ReaderView::opened(old(self)@, None),
            *final(r.target()) == *final(self),
    ;

    /// Compacts, then opens a writer on all free bytes.
    fn create_writer(&'a mut self) -> (w: Self::Writer)
        requires
            old(self)@.wf(),
        ensures
            w@ == WriterView::opened(old(self)@),
            *final(w.target()) == *final(self),
    ;
}

/// Creates a buffer that owns a zeroed array of `N` bytes.
pub fn new_stack_buffer<const N: usize>() -> (b: Buffer<[u8; N]>)
    ensures
        b.wf(),
        b@ == BufferView::fresh(Seq::new(N as nat, |i: int| 0u8)),
{
    let b = Buffer { source: [0u8;N], read_position: 0, write_position: 0 };
    assert(b@.storage =~= Seq::new(N as nat, |i: int| 0u8));
    b
}

impl<S: Storage> Buffer<S> {
    /// The cursor invariant holds of this buffer.
    pub open spec fn wf(&self) -> bool {
        self@.wf()
    }

    /// The backing store.
    pub closed spec fn source(&self) -> S {
        self.source
    }

    /// The storage of the model is what the backing store holds.
    pub proof fn lemma_storage_is_source(&self)
        ensures
            self@.storage == self.source().bytes(),
    {
    }

    /// The capacity of a buffer fits the machine word.
    pub proof fn lemma_capacity_fits(&self)
        ensures
            self@.capacity() <= usize::MAX,
    {
        self.source.lemma_len_fits();
    }

    /// Creates a buffer over `source`, with both cursors at zero. The bytes
    /// that `source` holds stay in place as free space.
    pub fn new(source: S) -> (b: Self)
        ensures
            b.wf(),
            b@ == BufferView::fresh(source.bytes()),
            b.source() == source,
    {
        Buffer { source, read_position: 0, write_position: 0 }
    }

    /// Puts both cursors back to zero and so discards the unread bytes.
    pub fn reset(&mut self)
        ensures
            final(self).wf(),
            final(self)@ == old(self)@.cleared(),
    {
        self.read_position = 0;
        self.write_position = 0;
    }

    /// The length of the backing store.
    pub fn capacity(&self) -> (n: usize)
        ensures
            n == self@.capacity(),
    {
        self.source.as_bytes().len()
    }

    /// The number of bytes that can be written without compaction.
    pub fn remaining_capacity(&self) -> (n: usize)
        requires
            self.wf(),
        ensures
            n == self@.remaining_capacity(),
    {
        self.capacity() - self.write_position
    }

    /// Whether at least one byte can be written without compaction.
    pub fn has_remaining_capacity(&self) -> (b: bool)
        ensures
            b == (self@.write < self@.capacity()),
    {
        self.capacity() > self.write_position
    }

    /// The number of unread bytes.
    pub fn remaining_len(&self) -> (n: usize)
        requires
            self.wf(),
        ensures
            n == self@.remaining_len(),
    {
        self.write_position - self.read_position
    }

    /// Whether at least one byte is unread.
    pub fn has_remaining_len(&self) -> (b: bool)
        ensures
            b == (self@.read < self@.write),
    {
        self.write_position > self.read_position
    }

    /// Whether bytes before the read cursor can be reclaimed.
    pub fn has_dead_capacity(&self) -> (b: bool)
        ensures
            b == (self@.read > 0),
    {
        self.read_position > 0
    }

    /// The index of the next byte to be read.
    pub fn read_position(&self) -> (n: usize)
        ensures
            n == self@.read,
    {
        self.read_position
    }

    /// The index of the next byte to be written.
    pub fn write_position(&self) -> (n: usize)
        ensures
            n == self@.write,
    {
        self.write_position
    }

    /// Compacts the buffer: the unread bytes move to the start of the
    /// storage and the dead bytes before them become free space.
    pub fn shift(&mut self)
        requires
            old(self).wf(),
        ensures
            final(self).wf(),
            final(self)@ == old(self)@.shifted(),
            final(self)@.data() == old(self)@.data(),
    {
        let dead = self.read_position;
        let all = self.source.as_bytes_mut();
        all.rotate_left(dead);
        self.write_position -= self.read_position;
        self.read_position = 0;
    }

    /// Compacts the buffer if no byte is free, and tells whether a byte is
    /// free afterwards.
    pub fn ensure_remaining_capacity(&mut self) -> (b: bool)
        requires
            old(self).wf(),
        ensures
            final(self).wf(),
            final(self)@ == old(self)@.compacted_for(1),
            b == (final(self)@.remaining_capacity() > 0),
    {
        if !self.has_remaining_capacity() {
            self.shift();
            proof {
                // without dead bytes, compaction rotates by zero
                if old(self)@.read == 0 {
                    assert(old(self)@.shifted().storage =~= old(self)@.storage);
                }
            }
        }
        self.has_remaining_capacity()
    }

    /// Greedy write: stores as many leading bytes of `buf` as fit and
    /// returns their number. When no byte is free but dead bytes exist, the
    /// buffer is compacted first. An empty `buf` and a full buffer are
    /// reported as errors and leave the buffer as it was.
    pub fn write_base(&mut self, buf: &[u8]) -> (r: Result<usize, BufferError>)
        requires
            old(self).wf(),
        ensures
            final(self).wf(),
            final(self)@ == old(self)@.after_write(buf@),
            match r {
                Ok(n) => {
                    &&& old(self)@.write_result(buf@.len()) == Ok::<nat, BufferError>(n as nat)
                    &&& final(self)@.data() == old(self)@.data() + buf@.take(n as int)
                },
                Err(e) => old(self)@.write_result(buf@.len()) == Err::<nat, BufferError>(e),
            },
    {
        if buf.is_empty() {
            return Err(BufferError::ProvidedSliceEmpty);
        }
        if !self.has_remaining_capacity() && self.has_dead_capacity() {
            self.shift();
        }
        let room = self.remaining_capacity();
        if room == 0 {
            return Err(BufferError::NoCapacity);
        }
        let n = if room < buf.len() {
            room
        } else {
            buf.len()
        };
        self.store(&buf[0..n]);
        Ok(n)
    }

    /// Greedy read: moves as many unread bytes as fit to the start of `buf`
    /// and returns their number; the rest of `buf` keeps its bytes. An empty
    /// `buf` and a buffer without unread bytes are reported as errors and
    /// leave both as they were.
    pub fn read_base(&mut self, buf: &mut [u8]) -> (r: Result<usize, BufferError>)
        requires
            old(self).wf(),
        ensures
            final(self).wf(),
            final(self)@ == old(self)@.after_read(old(buf)@.len()),
            match r {
                Ok(n) => {
                    &&& old(self)@.read_result(old(buf)@.len()) == Ok::<nat, BufferError>(n as nat)
                    &&& final(buf)@ == old(self)@.data().take(n as int) + old(buf)@.skip(n as int)
                },
                Err(e) => {
                    &&& old(self)@.read_result(old(buf)@.len()) == Err::<nat, BufferError>(e)
                    &&& final(buf)@ == old(buf)@
                },
            },
    {
        if buf.is_empty() {
            return Err(BufferError::ProvidedSliceEmpty);
        }
        let unread = self.data();
        if unread.is_empty() {
            return Err(BufferError::NoData);
        }
        let n = if unread.len() > buf.len() {
            buf.len()
        } else {
            unread.len()
        };
        let (head, _) = buf.split_at_mut(n);
        head.copy_from_slice(&unread[0..n]);
        self.read_position += n;
        Ok(n)
    }

    /// Opens a reader that exposes at most `max_bytes` of the unread bytes.
    pub fn create_reader_with_max(&mut self, max_bytes: usize) -> (r: Reader<'_, S>)
        ensures
            r@ == ReaderView::opened(old(self)@, Some(max_bytes as nat)),
            *final(r.target()) == *final(self),
    {
        Reader::new_with_max(self, max_bytes)
    }

    /// The unread bytes, oldest first.
    pub fn data(&self) -> (s: &[u8])
        requires
            self.wf(),
        ensures
            s@ == self@.data(),
    {
        let all = self.source.as_bytes();
        &all[self.read_position..self.write_position]
    }

    /// Moves the read cursor `n` bytes ahead if that many bytes are unread,
    /// and reports `NoData` without any change if not.
    pub fn skip(&mut self, n: usize) -> (r: Result<(), BufferError>)
        requires
            old(self).wf(),
        ensures
            final(self).wf(),
            final(self)@ == old(self)@.after_skip(n as nat),
            r is Ok <==> n <= old(self)@.remaining_len(),
            r is Err ==> r == Err::<(), BufferError>(BufferError::NoData),
    {
        if self.remaining_len() >= n {
            self.read_position += n;
            Ok(())
        } else {
            Err(BufferError::NoData)
        }
    }

    /// All-or-nothing write: stores `buf` whole after the unread bytes if
    /// it fits beside them, after compaction where too few bytes are free;
    /// reports `NoCapacity` and changes nothing if it does not fit.
    pub fn push(&mut self, buf: &[u8]) -> (r: Result<(), BufferError>)
        requires
            old(self).wf(),
        ensures
            final(self).wf(),
            final(self)@ == old(self)@.after_push(buf@),
            r is Ok <==> old(self)@.fits(buf@.len()),
            r is Ok ==> final(self)@.data() == old(self)@.data() + buf@,
            r is Err ==> r == Err::<(), BufferError>(BufferError::NoCapacity),
    {
        if self.capacity() - self.remaining_len() < buf.len() {
            return Err(BufferError::NoCapacity);
        }
        if self.remaining_capacity() < buf.len() {
            self.shift();
        }
        self.store(buf);
        Ok(())
    }

    /// The bytes from `skip` bytes past the write cursor to the end of the
    /// storage.
    pub(crate) fn tail(&self, skip: usize) -> (s: &[u8])
        requires
            self.wf(),
            skip <= self@.remaining_capacity(),
        ensures
            s@ == self@.storage.subrange(self@.write + skip, self@.capacity() as int),
    {
        proof {
            self.lemma_capacity_fits();
        }
        let all = self.source.as_bytes();
        &all[self.write_position + skip..all.len()]
    }

    /// The bytes from `skip` bytes past the write cursor to the end of the
    /// storage, for writing. The cursors and the bytes before that region
    /// stay as they are.
    pub(crate) fn tail_mut(&mut self, skip: usize) -> (s: &mut [u8])
        requires
            old(self).wf(),
            skip <= old(self)@.remaining_capacity(),
        ensures
            s@ == old(self)@.storage.subrange(old(self)@.write + skip, old(self)@.capacity() as int),
            final(self)@ == old(self)@.with_tail(skip as nat, final(s)@),
    {
        proof {
            self.lemma_capacity_fits();
        }
        let at = self.write_position + skip;
        let all = self.source.as_bytes_mut();
        let (_, tail) = all.split_at_mut(at);
        tail
    }

    /// Moves the write cursor `n` bytes ahead; the bytes it passes become
    /// unread bytes.
    pub(crate) fn advance(&mut self, n: usize)
        requires
            old(self).wf(),
            n <= old(self)@.remaining_capacity(),
        ensures
            final(self).wf(),
            final(self)@ == old(self)@.advanced(n as nat),
    {
        proof {
            self.lemma_capacity_fits();
        }
        self.write_position += n;
    }

    /// Copies `bytes` to the write cursor and moves the cursor past them.
    fn store(&mut self, bytes: &[u8])
        requires
            old(self).wf(),
            bytes@.len() <= old(self)@.remaining_capacity(),
        ensures
            final(self).wf(),
            final(self)@ == old(self)@.appended(bytes@),
    {
        proof {
            self.lemma_capacity_fits();
        }
        let at = self.write_position;
        let all = self.source.as_bytes_mut();
        let (_, tail) = all.split_at_mut(at);
        let (target, _) = tail.split_at_mut(bytes.len());
        target.copy_from_slice(bytes);
        self.write_position += bytes.len();
        assert(self@.storage =~= old(self)@.appended(bytes@).storage);
    }
}

impl<'a, S: Storage + 'a> ReadWrite<'a> for Buffer<S> {
    type Reader = Reader<'a, S>;

    type Writer = Write<'a, S>;

    fn create_reader(&'a mut self) -> (r: Reader<'a, S>) {
        Reader::new(self)
    }

    fn create_writer(&'a mut self) -> (w: Write<'a, S>) {
        self.shift();
        Write::new(self)
    }
}

impl<S: Storage + Clone> Clone for Buffer<S> {
    /// The copy has the cursors of the buffer it is made from, over a clone
    /// of its storage.
    fn clone(&self) -> (res: Self)
        ensures
            res@.read == self@.read,
            res@.write == self@.write,
            cloned::<S>(self.source(), res.source()),
    {
        Buffer {
            source: self.source.clone(),
            write_position: self.write_position,
            read_position: self.read_position,
        }
    }
}

} // verus!
