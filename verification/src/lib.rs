//! Fixed-length windows into arrays and slices, borrowed in place.
//!
//! [`SubArray`] hands out a reference to `N` consecutive elements of an array
//! or a slice, starting at an offset chosen at run time. The length `N` is a
//! constant of the call, so the window has an array type; no element is moved
//! or copied.
//!
//! ```
//! use sub_array::SubArray;
//!
//! let arr: [u8; 7] = [1, 2, 3, 4, 5, 6, 7];
//! let sub: &[u8; 3] = arr.sub_array_ref(1);
//! assert_eq!(sub, &[2, 3, 4]);
//! ```
//!
//! A mutable window writes into the source:
//!
//! ```
//! use sub_array::SubArray;
//!
//! let mut arr = [0_u8; 10];
//! *arr.sub_array_mut::<2>(0) = 42_u16.to_be_bytes();
//! *arr.sub_array_mut::<4>(2) = 0x1234_u32.to_be_bytes();
//! *arr.sub_array_mut::<4>(6) = 0x5678_u32.to_be_bytes();
//! assert_eq!(arr, [0, 42, 0, 0, 0x12, 0x34, 0, 0, 0x56, 0x78]);
//! ```
//!
//! The contracts are stated over [`window::window`] and
//! [`window::with_window`], on the sequence of a container's elements.

use vstd::prelude::*;

pub mod slice_to_array;
pub mod window;

use crate::window::{window, with_window};

verus! {

/// A container of consecutive elements from which a window of a fixed length
/// can be borrowed.
pub trait SubArray {
    /// The type of the elements: the `T` of `[T; N]`.
    type Item;

    /// The elements of the container, in order. The contracts of the two
    /// methods speak of a container through this sequence.
    spec fn elements(&self) -> Seq<Self::Item>;

    /// Borrows the `N` elements that start at `offset`.
    ///
    /// The window must fit: `offset + N` may not exceed the number of
    /// elements. A window of length zero fits at every offset up to and
    /// including that number.
    ///
    /// # Panics
    ///
    /// Verified callers prove that the window fits. For a caller that is not
    /// verified and asks for a window that does not fit, the implementations
    /// of this crate panic, as an index out of bounds does; they never hand
    /// out a shorter window or one from another place.
    fn sub_array_ref<const N: usize>(&self, offset: usize) -> (sub: &[Self::Item; N])
        requires
            offset + N <= self.elements().len(),
        ensures
            sub@ == window(self.elements(), offset as int, N as int),
    ;

    /// Borrows the `N` elements that start at `offset`, for writing.
    ///
    /// The window must fit, as for [`SubArray::sub_array_ref`], and the same
    /// is said there of callers that are not verified. The window starts out
    /// holding the elements of the container; when the borrow ends, the
    /// container holds at the window's positions what the window then holds,
    /// and elsewhere what it held before.
    fn sub_array_mut<const N: usize>(&mut self, offset: usize) -> (sub: &mut [Self::Item; N])
        requires
            offset + N <= (*old(self)).elements().len(),
        ensures
            sub@ == window((*old(self)).elements(), offset as int, N as int),
            (*final(self)).elements() == with_window(
                (*old(self)).elements(),
                offset as int,
                final(sub)@,
            ),
    ;
}

/// Arrays of any length and element type.
impl<T, const M: usize> SubArray for [T; M] {
    type Item = T;

    open spec fn elements(&self) -> Seq<T> {
        self@
    }

    fn sub_array_ref<const N: usize>(&self, offset: usize) -> (sub: &[T; N])
        ensures
            forall|i: int| 0 <= i < N ==> sub@[i] == self@[offset + i],
    {
        <&[T; N]>::try_from(&self[offset..(offset + N)]).unwrap()
    }

    fn sub_array_mut<const N: usize>(&mut self, offset: usize) -> (sub: &mut [T; N])
        ensures
            forall|i: int| 0 <= i < N ==> sub@[i] == old(self)@[offset + i],
            final(self)@.len() == old(self)@.len(),
            forall|i: int| 0 <= i < N ==> final(self)@[offset + i] == final(sub)@[i],
            forall|j: int|
                0 <= j < offset || offset + N <= j < old(self)@.len()
                    ==> final(self)@[j] == old(self)@[j],
    {
        let (_, tail) = self.split_at_mut(offset);
        let (mid, _) = tail.split_at_mut(N);
        <&mut [T; N]>::try_from(mid).unwrap()
    }
}

/// Slices: the length of the source is known at run time only, that of the
/// window is still a constant.
impl<T> SubArray for [T] {
    type Item = T;

    open spec fn elements(&self) -> Seq<T> {
        self@
    }

    fn sub_array_ref<const N: usize>(&self, offset: usize) -> (sub: &[T; N])
        ensures
            forall|i: int| 0 <= i < N ==> sub@[i] == self@[offset + i],
    {
        proof {
            vstd::slice::axiom_spec_len(self);
        }
        <&[T; N]>::try_from(&self[offset..(offset + N)]).unwrap()
    }

    fn sub_array_mut<const N: usize>(&mut self, offset: usize) -> (sub: &mut [T; N])
        ensures
            forall|i: int| 0 <= i < N ==> sub@[i] == old(self)@[offset + i],
            final(self)@.len() == old(self)@.len(),
            forall|i: int| 0 <= i < N ==> final(self)@[offset + i] == final(sub)@[i],
            forall|j: int|
                0 <= j < offset || offset + N <= j < old(self)@.len()
                    ==> final(self)@[j] == old(self)@[j],
    {
        let (_, tail) = self.split_at_mut(offset);
        let (mid, _) = tail.split_at_mut(N);
        <&mut [T; N]>::try_from(mid).unwrap()
    }
}

/// Mutable references to a container: both methods pass through to it, so
/// that whoever holds a container by reference can borrow a window from it.
impl<T> SubArray for &mut T where T: SubArray {
    type Item = T::Item;

    open spec fn elements(&self) -> Seq<T::Item> {
        (**self).elements()
    }

    fn sub_array_ref<const N: usize>(&self, offset: usize) -> (sub: &[T::Item; N]) {
        (**self).sub_array_ref(offset)
    }

    /// The reference itself is left as it was found: it still borrows the
    /// same container, so what was written through the window is found there
    /// once the reference ends.
    fn sub_array_mut<const N: usize>(&mut self, offset: usize) -> (sub: &mut [T::Item; N])
        ensures
            *final(*final(self)) == *final(*old(self)),
    {
        (**self).sub_array_mut(offset)
    }
}

} // verus!
