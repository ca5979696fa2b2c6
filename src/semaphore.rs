//! The semaphore handle and the meaning of each kernel call's status.
use vstd::prelude::*;
use crate::error::OsError;
use crate::kernel::{WAIT_OBJECT_0, WAIT_TIMEOUT};

verus! {

/// How a wait with a time limit ended, when the wait call itself did not fail.
#[derive(Clone, Copy, Debug, PartialEq, Eq, Structural)]
pub enum WaitOutcome {
    /// A count was available within the time allowed and was taken.
    Admitted,
    /// The time ran out and no count was taken.
    TimedOut,
}

/// An owned handle to a kernel semaphore object.
///
/// The handle is never null. Two `Semaphore` values may refer to the same kernel
/// object, each through its own handle: they then share one counter.
#[derive(Debug)]
pub struct Semaphore {
    handle: usize,
}

impl Semaphore {
    #[verifier::type_invariant]
    spec fn valid(self) -> bool {
        self.handle != 0
    }

    /// The raw handle value.
    pub closed spec fn raw(self) -> usize {
        self.handle
    }

    /// Result of creating a semaphore, from the handle that the creating call
    /// returned and the thread's last error after it. A null handle means that
    /// the kernel could not create the object (out of resources, or an initial
    /// count above the maximum).
    pub fn from_created(raw: usize, last_error: i32) -> (r: Result<Semaphore, OsError>)
        ensures
            raw != 0 ==> (r matches Ok(s) && s.raw() == raw),
            raw == 0 ==> r == Err::<Semaphore, OsError>(OsError { code: last_error }),
    {
        if raw == 0 {
            Err(OsError::new(last_error))
        } else {
            Ok(Semaphore { handle: raw })
        }
    }

    /// Result of duplicating this semaphore's handle, from the success flag of the
    /// duplicating call and the new handle it wrote. `None` means the duplication
    /// failed, which leaves no usable second handle: the caller must not go on.
    pub fn from_duplicated(&self, ok: i32, raw: usize) -> (r: Option<Semaphore>)
        ensures
            ok != 0 && raw != 0 ==> (r matches Some(s) && s.raw() == raw),
            ok == 0 || raw == 0 ==> r is None,
    {
        if ok != 0 && raw != 0 {
            Some(Semaphore { handle: raw })
        } else {
            None
        }
    }

    /// The raw handle, to be passed to the kernel calls.
    pub fn handle(&self) -> (r: usize)
        ensures
            r == self.raw(),
            r != 0,
    {
        proof {
            use_type_invariant(self);
        }
        self.handle
    }
}

/// Result of a release, from the success flag of the releasing call and the
/// thread's last error after it. The kernel refuses a release that would take the
/// count above the semaphore's maximum (or one of a count that is not positive),
/// leaves the count as it was, and reports an error: that error is returned.
pub fn release_outcome(ok: i32, last_error: i32) -> (r: Result<(), OsError>)
    ensures
        ok != 0 ==> r is Ok,
        ok == 0 ==> r == Err::<(), OsError>(OsError { code: last_error }),
{
    if ok != 0 {
        Ok(())
    } else {
        Err(OsError::new(last_error))
    }
}

/// Result of a wait without a time limit, from the status of the wait call and
/// the thread's last error after it. Only the signalled status admits the caller;
/// any other status is a failure of the wait itself.
pub fn acquire_outcome(status: u32, last_error: i32) -> (r: Result<(), OsError>)
    ensures
        status == WAIT_OBJECT_0 ==> r is Ok,
        status != WAIT_OBJECT_0 ==> r == Err::<(), OsError>(OsError { code: last_error }),
{
    if status == WAIT_OBJECT_0 {
        Ok(())
    } else {
        Err(OsError::new(last_error))
    }
}

/// Result of a wait with a time limit, from the status of the wait call and the
/// thread's last error after it. Running out of time is an ordinary outcome,
/// not an error; any status other than signalled or timed out is a failure.
pub fn wait_outcome(status: u32, last_error: i32) -> (r: Result<WaitOutcome, OsError>)
    ensures
        status == WAIT_OBJECT_0 ==> r == Ok::<WaitOutcome, OsError>(WaitOutcome::Admitted),
        status == WAIT_TIMEOUT ==> r == Ok::<WaitOutcome, OsError>(WaitOutcome::TimedOut),
        status != WAIT_OBJECT_0 && status != WAIT_TIMEOUT ==> r == Err::<WaitOutcome, OsError>(
            OsError { code: last_error },
        ),
{
    if status == WAIT_OBJECT_0 {
        Ok(WaitOutcome::Admitted)
    } else if status == WAIT_TIMEOUT {
        Ok(WaitOutcome::TimedOut)
    } else {
        Err(OsError::new(last_error))
    }
}

} // verus!
