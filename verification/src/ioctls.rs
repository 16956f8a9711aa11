//! What the driver's answers to control calls mean.
//!
//! A control call is answered with a number, and zero alone means
//! success. The driver reports a failure through the return value of the
//! call or, with the return value -1, through the error number of the
//! process; the two ways are told apart by whoever makes the call.

use vstd::prelude::*;
use nix::errno::Errno;

verus! {

/// `nix::errno::Errno::from_i32`, which finds the error that a number
/// stands for on the platform, and an unknown error for a number that
/// stands for none. The number of the error found is returned: each
/// error has the number that stands for it, and the unknown error has
/// zero. Which numbers stand for errors is the platform's business.
#[verifier::external_body]
fn errno_from_i32(code: i32) -> (r: i32)
    ensures
        r == code || r == 0,
{
    Errno::from_i32(code) as i32
}

/// The status that stands for a failure which was reported as `reported`
/// and which the platform knows as the error number `known`, or does not
/// know if `known` is zero.
pub open spec fn failure_status(reported: i32, known: i32) -> i32 {
    if known != 0 {
        known
    } else if reported != 0 {
        reported
    } else {
        -1i32
    }
}

/// The status for a failure that was reported as `reported` and that the
/// platform knows as `known`: the known error number, or else the number
/// that was reported, or else the -1 of a failed call.
pub fn status_of_failure(reported: i32, known: i32) -> (status: i32)
    ensures
        status == failure_status(reported, known),
        status != 0,
{
    if known != 0 {
        known
    } else if reported != 0 {
        reported
    } else {
        -1
    }
}

/// The status of a control call as [`map_result`] reports it: what the
/// call returned, or the error number with which it failed, or -1 where
/// the error number says nothing.
pub open spec fn spec_map_result(r: Result<i32, i32>) -> i32 {
    match r {
        Ok(returned) => returned,
        Err(errno) => failure_status(errno, errno),
    }
}

/// Turns the answer to a control call into its status: zero for
/// success, anything else for failure.
///
/// `Ok` holds what the call returned and `Err` the error number where the
/// call failed with -1. Every return value but zero is a failure, and so
/// is every error number. A return value that reports a failure is
/// looked up among the error numbers of the platform, which knows it
/// under its own number or not at all.
pub fn map_result(r: Result<i32, i32>) -> (status: i32)
    ensures
        status == spec_map_result(r),
        status == 0 <==> r == Ok::<i32, i32>(0),
{
    match r {
        Ok(returned) => {
            if returned == 0 {
                0
            } else {
                status_of_failure(returned, errno_from_i32(returned))
            }
        },
        Err(errno) => status_of_failure(errno, errno),
    }
}

} // verus!
