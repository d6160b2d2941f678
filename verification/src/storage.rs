//! The backing store of a buffer: anything that can show itself as a byte
//! slice of fixed length, shared or mutable.

use vstd::prelude::*;

verus! {

/// A fixed-length region of bytes that a buffer keeps its data in.
///
/// `bytes` is what the region holds. Writing through the slice that
/// `as_bytes_mut` hands out changes exactly those bytes.
pub trait Storage {
    /// The bytes held, in order.
    spec fn bytes(&self) -> Seq<u8>;

    /// The region is addressable: its length fits the machine word.
    proof fn lemma_len_fits(&self)
        ensures
            self.bytes().len() <= usize::MAX,
    ;

    /// The region as a shared slice.
    fn as_bytes(&self) -> (s: &[u8])
        ensures
            s@ == self.bytes(),
    ;

    /// The region as a mutable slice; what the slice holds when the borrow
    /// ends is what the region holds from then on.
    fn as_bytes_mut(&mut self) -> (s: &mut [u8])
        ensures
            s@ == old(self).bytes(),
            final(self).bytes() == final(s)@,
    ;
}

impl Storage for Vec<u8> {
    open spec fn bytes(&self) -> Seq<u8> {
        self@
    }

    proof fn lemma_len_fits(&self) {
        assert(self@.len() == self.len());
    }

    fn as_bytes(&self) -> (s: &[u8]) {
        self.as_slice()
    }

    fn as_bytes_mut(&mut self) -> (s: &mut [u8]) {
        self.as_mut_slice()
    }
}

impl<const N: usize> Storage for [u8; N] {
    open spec fn bytes(&self) -> Seq<u8> {
        self@
    }

    proof fn lemma_len_fits(&self) {
    }

    fn as_bytes(&self) -> (s: &[u8]) {
        self.as_slice()
    }

    fn as_bytes_mut(&mut self) -> (s: &mut [u8]) {
        self
    }
}

impl<'a> Storage for &'a mut [u8] {
    open spec fn bytes(&self) -> Seq<u8> {
        (**self)@
    }

    proof fn lemma_len_fits(&self) {
        assert((**self)@.len() == (**self).len());
    }

    fn as_bytes(&self) -> (s: &[u8]) {
        &**self
    }

    fn as_bytes_mut(&mut self) -> (s: &mut [u8]) {
        &mut **self
    }
}

impl<'a, const N: usize> Storage for &'a mut [u8; N] {
    open spec fn bytes(&self) -> Seq<u8> {
        (**self)@
    }

    proof fn lemma_len_fits(&self) {
    }

    fn as_bytes(&self) -> (s: &[u8]) {
        (**self).as_slice()
    }

    fn as_bytes_mut(&mut self) -> (s: &mut [u8]) {
        &mut **self
    }
}

} // verus!
