//! What the crate takes from the standard library on trust.
//!
//! Nothing here is proved: each item states, for the verifier, what the
//! standard library documents of one of its own types or functions.

use vstd::prelude::*;

verus! {

/// `std::io::Error`, carried through as an opaque value.
#[verifier::external_type_specification]
#[verifier::external_body]
pub struct ExIoError(std::io::Error);

/// `std::io::IoSlice`, carried through as an opaque value.
#[verifier::external_type_specification]
#[verifier::external_body]
pub struct ExIoSlice<'a>(std::io::IoSlice<'a>);

/// `std::io::IoSliceMut`, carried through as an opaque value.
#[verifier::external_type_specification]
#[verifier::external_body]
pub struct ExIoSliceMut<'a>(std::io::IoSliceMut<'a>);

/// The operating system's code that an error stands for, as
/// `std::io::Error::raw_os_error` reports it.
pub uninterp spec fn raw_os_error(error: std::io::Error) -> Option<i32>;

/// Calls `std::io::Error::from_raw_os_error`. The standard library documents
/// that an error built this way reports the code it was built from.
#[verifier::external_body]
pub(crate) fn error_from_raw_os_error(code: i32) -> (error: std::io::Error)
    ensures
        raw_os_error(error) == Some(code),
{
    std::io::Error::from_raw_os_error(code)
}

/// Calls `as_ptr` on a slice and hands the address back as an integer.
/// Where a slice lies in memory is not a function of what it holds, so
/// nothing is claimed of the result.
#[verifier::external_body]
pub(crate) fn slice_address<T>(slice: &[T]) -> (addr: u64) {
    slice.as_ptr() as usize as u64
}

} // verus!
