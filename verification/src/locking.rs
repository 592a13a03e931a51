//! The error discipline around an advisory file lock.
//!
//! Every read takes a shared lock and every write an exclusive lock, and
//! the lock is released on every exit path, whether or not the operation
//! inside it succeeded — a failed write must not leave the file locked.
//! The shell performs the lock, the operation and the unlock; this module
//! fixes which outcome the caller sees: a failure to release the lock is
//! surfaced even when the guarded operation succeeded, and otherwise the
//! operation's own outcome is passed through, error or not.

use vstd::prelude::*;

use crate::error::Error;

verus! {

/// The outcome of a lock-guarded operation, combined from the operation's
/// own outcome and the outcome of releasing the lock afterwards. The
/// release always happens; its failure wins over whatever the operation
/// produced, and a release that worked leaves the operation's outcome
/// untouched.
pub fn finish_locked<T>(op: Result<T, Error>, unlock: Result<(), Error>) -> (r: Result<T, Error>)
    ensures
        match unlock {
            Err(ue) => r == Err::<T, Error>(ue),
            Ok(_) => r == op,
        },
{
    match unlock {
        Err(ue) => Err(ue),
        Ok(_) => op,
    }
}

} // verus!
