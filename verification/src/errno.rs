//! The error code the operating system left for the calling thread.

use vstd::prelude::*;

verus! {

/// `std::io::Error::last_os_error()`, read as its raw code with `raw_os_error()`.
/// The code is whatever the last failed system call of this thread set, so nothing
/// is claimed of its value; the documentation of `raw_os_error` says that an error
/// built by `last_os_error` always has one, which is what the contract states.
#[verifier::external_body]
fn last_os_error_code() -> (code: Option<i32>)
    ensures
        code is Some,
{
    std::io::Error::last_os_error().raw_os_error()
}

/// The error code of the last failed system call of the calling thread (`errno`).
pub fn get_err() -> (code: i32) {
    last_os_error_code().unwrap()
}

} // verus!
