//! What the return of a call into the system means.
//!
//! Such a call returns a number, and -1 stands for a failure whose reason
//! is the error number that the call left behind.

use vstd::prelude::*;

verus! {

/// What a call's return means: a failure with the error number `errno` if
/// the call returned -1, else the number it returned.
pub open spec fn spec_libc_call(returned: isize, errno: i32) -> Result<isize, i32> {
    if returned == -1 {
        Err(errno)
    } else {
        Ok(returned)
    }
}

/// Judges the return of a call, given the number that it returned and
/// the error number that it left behind.
#[verifier::when_used_as_spec(spec_libc_call)]
pub fn libc_call(returned: isize, errno: i32) -> (judged: Result<isize, i32>)
    ensures
        judged == spec_libc_call(returned, errno),
{
    if returned == -1 {
        Err(errno)
    } else {
        Ok(returned)
    }
}

/// Judges the return of a call that returns nothing but zero on success.
pub fn libc_void_call(returned: isize, errno: i32) -> (judged: Result<(), i32>)
    requires
        returned == 0 || returned == -1,
    ensures
        judged == if returned == -1 {
            Err::<(), i32>(errno)
        } else {
            Ok::<(), i32>(())
        },
{
    match libc_call(returned, errno) {
        Ok(_) => Ok(()),
        Err(errno) => Err(errno),
    }
}

} // verus!
