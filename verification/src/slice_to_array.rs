//! What this crate takes on trust from the standard library: the conversion
//! of a slice reference into a reference to an array of a fixed length.
//! Nothing here is proved; each item says what the standard library documents.

use core::array::TryFromSliceError;
use vstd::prelude::*;

verus! {

/// `core::array::TryFromSliceError`, the error of the conversions below. It is
/// carried, never inspected.
#[verifier::external_type_specification]
#[verifier::external_body]
pub struct ExTryFromSliceError(TryFromSliceError);

/// `TryFrom<&[T]> for &[T; N]`. The conversion succeeds when the slice has
/// exactly `N` elements, and the array it then refers to holds the elements of
/// the slice, in order.
pub assume_specification<'a, T, const N: usize>[ <&'a [T; N] as TryFrom<&'a [T]>>::try_from ](
    slice: &'a [T],
) -> (r: Result<&'a [T; N], TryFromSliceError>)
    ensures
        slice@.len() == N ==> r is Ok,
        r is Ok ==> r->Ok_0@ == slice@,
;

/// `TryFrom<&mut [T]> for &mut [T; N]`. The conversion succeeds when the slice
/// has exactly `N` elements. The array it then refers to holds the elements of
/// the slice, in order, and is the slice's own storage: what the array holds
/// when the borrow ends is what the slice holds.
pub assume_specification<'a, T, const N: usize>[ <&'a mut [T; N] as TryFrom<&'a mut [T]>>::try_from ](
    slice: &'a mut [T],
) -> (r: Result<&'a mut [T; N], TryFromSliceError>)
    ensures
        old(slice)@.len() == N ==> r is Ok,
        r is Ok ==> r->Ok_0@ == old(slice)@ && final(slice)@ == final(r->Ok_0)@,
;

} // verus!
