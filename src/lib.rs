//! A counting semaphore backed by the operating system's native semaphore object.
//!
//! The kernel owns the counter and the queue of waiters. This library holds the
//! decisions taken around each kernel call: how arguments are handed to it, and
//! how the status it reports becomes a result for the caller.
pub mod error;
pub mod kernel;
pub mod semaphore;

pub use error::OsError;
pub use semaphore::{Semaphore, WaitOutcome};
