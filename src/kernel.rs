//! Values exchanged with the kernel's semaphore and wait calls.
use vstd::prelude::*;

verus! {

/// Upper bound on the count given to every semaphore this library creates.
pub const MAX_COUNT: i32 = 0x1000_0000;

/// Wait status: the object was signalled and one count was taken.
pub const WAIT_OBJECT_0: u32 = 0;

/// Wait status: the time allowed ran out before a count became available.
pub const WAIT_TIMEOUT: u32 = 258;

/// Wait status: the wait call itself failed; the thread's last error says why.
pub const WAIT_FAILED: u32 = 0xFFFF_FFFF;

/// Timeout value that makes a wait last until the object is signalled.
pub const INFINITE: u32 = 0xFFFF_FFFF;

/// The signed 32-bit integer with the same bits as `v`.
pub open spec fn long_of(v: u32) -> int {
    if v <= i32::MAX {
        v as int
    } else {
        v - 0x1_0000_0000
    }
}

/// Reinterprets an unsigned count as the signed `LONG` that the kernel calls take.
/// Counts up to `i32::MAX` keep their value; larger ones become negative, which
/// the kernel then refuses as an invalid parameter.
pub fn to_long(v: u32) -> (r: i32)
    ensures
        r == long_of(v),
{
    if v <= 0x7fff_ffff {
        v as i32
    } else {
        ((v as i64) - 0x1_0000_0000i64) as i32
    }
}

} // verus!
