//! Status codes of the automation runtime and the error they map to.

use vstd::prelude::*;

verus! {

/// `com::sys::FAILED` tells a failure status from a success: the status is a
/// failure exactly when it is negative.
pub assume_specification[ com::sys::FAILED ](result: com::sys::HRESULT) -> (failed: bool)
    ensures
        failed == is_failure(result),
;

/// The argument was out of the array's bounds (`DISP_E_BADINDEX`).
pub const DISP_E_BADINDEX: i32 = -2147352565i32;

/// Success without further news (`S_OK`).
pub const S_OK: i32 = 0i32;

/// Success, with fewer items than were asked for (`S_FALSE`).
pub const S_FALSE: i32 = 1i32;

/// Whether a status code reports a failure: negative codes do, all others are
/// successes.
pub open spec fn is_failure(status: i32) -> bool {
    status < 0
}

/// A failed foreign call, with the status code exactly as the runtime gave it.
#[derive(Debug, Clone, Copy, PartialEq, Eq, Hash, Structural)]
pub struct OsError {
    pub code: i32,
}

impl OsError {
    /// Wraps a status code without looking at it.
    pub fn from_raw_os_error(code: i32) -> (e: OsError)
        ensures
            e.code == code,
    {
        OsError { code }
    }

    /// The status code, unchanged.
    pub fn raw_os_error(&self) -> (code: i32)
        ensures
            code == self.code,
    {
        self.code
    }
}

/// What a status code means for the caller.
pub open spec fn status_result(status: i32) -> Result<(), OsError> {
    if is_failure(status) {
        Err(error_of(status))
    } else {
        Ok(())
    }
}

/// The error that carries `status`.
pub open spec fn error_of(status: i32) -> OsError {
    OsError { code: status }
}

/// Maps a status code to a result: a failure becomes an error that keeps the
/// code, anything else is success.
pub fn check(status: i32) -> (r: Result<(), OsError>)
    ensures
        r == status_result(status),
        r is Err <==> status < 0,
        r is Err ==> r->Err_0.code == status,
{
    if com::sys::FAILED(status) {
        Err(OsError { code: status })
    } else {
        Ok(())
    }
}

/// What a foreign call with an out-parameter hands to the caller, from its
/// status and the value it wrote: the value on success, the error on failure.
pub open spec fn value_result<T>(status: i32, value: T) -> Result<T, OsError> {
    if is_failure(status) {
        Err(error_of(status))
    } else {
        Ok(value)
    }
}

/// Maps the reply of a foreign call with an out-parameter to a result: the
/// value it wrote on success, the error that keeps the code on failure.
pub fn check_value<T>(status: i32, value: T) -> (r: Result<T, OsError>)
    ensures
        r == value_result(status, value),
{
    if com::sys::FAILED(status) {
        Err(OsError { code: status })
    } else {
        Ok(value)
    }
}

/// What the creation of a foreign object gives: the object on success, the
/// error with the status on failure.
pub open spec fn created_result<T>(created: Result<T, i32>) -> Result<T, OsError> {
    match created {
        Ok(object) => Ok(object),
        Err(status) => Err(error_of(status)),
    }
}

/// Maps the outcome of creating a foreign object: the error keeps the status.
pub fn check_created<T>(created: Result<T, i32>) -> (r: Result<T, OsError>)
    ensures
        r == created_result(created),
{
    match created {
        Ok(object) => Ok(object),
        Err(status) => Err(OsError { code: status }),
    }
}

} // verus!
