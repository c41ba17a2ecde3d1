//! Fixed-size views of colour component arrays.
use vstd::prelude::*;

verus! {

/// The error of the standard library's conversion from a slice to an array
/// reference. Nothing is read from it.
#[verifier::external_type_specification]
#[verifier::external_body]
pub struct ExTryFromSliceError(core::array::TryFromSliceError);

/// `TryFrom<&[T]> for &[T; N]` of the standard library: the conversion
/// succeeds when the slice holds `N` entries, and the array that it then
/// refers to holds the entries of the slice, in order.
pub assume_specification<'a, T, const N: usize>[ <&'a [T; N] as TryFrom<&'a [T]>>::try_from ](
    slice: &'a [T],
) -> (ret: Result<&'a [T; N], core::array::TryFromSliceError>)
    ensures
        slice@.len() == N ==> ret is Ok,
        ret is Ok ==> ret->Ok_0@ == slice@,
;

/// The first three entries of `arr`, in order: what is left of a colour with
/// an alpha channel once the alpha is dropped.
pub fn subarray<T>(arr: &[T; 4]) -> (head: &[T; 3])
    ensures
        head@ == arr@.take(3),
{
    let front = &arr[0..3];
    let converted = <&[T; 3]>::try_from(front);
    converted.unwrap()
}

} // verus!
