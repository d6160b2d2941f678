//! Contracts for the two slice primitives of the standard library that move
//! bytes inside the backing store. Both are assumed, not proved.

use vstd::prelude::*;

verus! {

/// `<[T]>::rotate_left`: the first `mid` elements move to the end and the
/// others move to the front, keeping their order. The standard library panics
/// when `mid` exceeds the length, so that case is excluded.
pub assume_specification<T>[ <[T]>::rotate_left ](slice: &mut [T], mid: usize)
    requires
        mid <= old(slice)@.len(),
    ensures
        final(slice)@ == old(slice)@.subrange(mid as int, old(slice)@.len() as int)
            + old(slice)@.subrange(0, mid as int),
;

/// `<[T]>::copy_from_slice`: every element of `src` is copied into the
/// destination. The standard library panics when the lengths differ, so that
/// case is excluded.
pub assume_specification<T: Copy>[ <[T]>::copy_from_slice ](slice: &mut [T], src: &[T])
    requires
        src@.len() == old(slice)@.len(),
    ensures
        final(slice)@ == src@,
;

} // verus!
