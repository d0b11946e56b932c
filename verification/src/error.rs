//! The one kind of failure this crate reports: a native call failed.

use vstd::prelude::*;

verus! {

/// The code the platform reports for an attempt to use a handle value that
/// does not reference a live object.
pub const ERROR_INVALID_HANDLE: u32 = 6;

/// The code the platform reports for a call whose parameters it refuses,
/// such as a screen-buffer resize below the window's extent.
pub const ERROR_INVALID_PARAMETER: u32 = 87;

/// The code the platform reports for a semaphore release that would push the
/// count past its maximum.
pub const ERROR_TOO_MANY_POSTS: u32 = 298;

/// A failed native call, carried as the platform's last-error code.
///
/// Every operation in this crate is a single native call; the only failure it
/// can surface is the error code the platform recorded for that call. No
/// retry is ever performed: the code travels straight to the caller.
#[derive(Copy, Clone, Debug, PartialEq, Eq, Structural)]
pub struct OsError {
    /// The platform's last-error code at the point of failure.
    pub code: u32,
}

impl OsError {
    /// Wrap a last-error code reported by the platform.
    pub fn new(code: u32) -> (e: OsError)
        ensures
            e.code == code,
    {
        OsError { code }
    }

    /// The error reported when an acquisition handed back a handle value
    /// that the crate must not accept.
    pub fn invalid_handle() -> (e: OsError)
        ensures
            e.code == ERROR_INVALID_HANDLE,
    {
        OsError { code: ERROR_INVALID_HANDLE }
    }

    /// The platform error code this failure carries.
    pub fn code(&self) -> (c: u32)
        ensures
            c == self.code,
    {
        self.code
    }
}

} // verus!
