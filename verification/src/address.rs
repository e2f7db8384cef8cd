//! Addresses of borrowed data, as the integers that Mojo's `Int` parameters
//! take.

use vstd::prelude::*;

verus! {

/// The address of the first element of `s`, from `NonNull::from`, which
/// is never null because a reference never is (also for an empty slice).
/// Nothing more is stated of the value: it is wherever the data was placed.
#[verifier::external_body]
pub(crate) fn slice_address<T>(s: &[T]) -> (addr: isize)
    ensures
        addr != 0,
{
    core::ptr::NonNull::from(s).cast::<u8>().as_ptr() as isize
}

/// The address of the first byte of `s`, from `NonNull::from`, which is
/// never null because a reference never is (also for an empty string).
/// Nothing more is stated of the value: it is wherever the text was placed.
#[verifier::external_body]
pub(crate) fn str_address(s: &str) -> (addr: isize)
    ensures
        addr != 0,
{
    core::ptr::NonNull::from(s).cast::<u8>().as_ptr() as isize
}

} // verus!
