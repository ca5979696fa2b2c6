//! The error reported when a kernel call fails.
use vstd::prelude::*;

verus! {

/// A failure of a kernel call, carrying the platform's native error code.
#[derive(Clone, Copy, Debug, PartialEq, Eq, Structural)]
pub struct OsError {
    pub code: i32,
}

impl OsError {
    pub fn new(code: i32) -> (e: OsError)
        ensures
            e.code == code,
    {
        OsError { code }
    }

    /// The platform's error code, as the thread's last error held it.
    pub fn code(&self) -> (r: i32)
        ensures
            r == self.code,
    {
        self.code
    }
}

} // verus!
