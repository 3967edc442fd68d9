//! The error taxonomy of lock acquisition and release.

use vstd::prelude::*;

verus! {

/// Why a constructor failed to produce a guard. No lock is held and no
/// ownership changes when one of these is returned.
#[derive(Clone, Copy, Debug, PartialEq, Eq, Structural)]
pub enum LockError {
    /// A non-blocking acquire found an incompatible lock already held.
    /// Recoverable: the caller may retry, block, or abandon.
    Contention,
    /// The underlying lock facility failed for a reason unrelated to
    /// contention; carries the OS error code, propagated verbatim.
    Io(i32),
}

impl LockError {
    /// True exactly for the recoverable contention case.
    pub fn is_contention(&self) -> (r: bool)
        ensures
            r == (*self is Contention),
    {
        match self {
            LockError::Contention => true,
            LockError::Io(_) => false,
        }
    }

    /// A short description of the error, for diagnostics.
    pub fn describe(&self) -> (r: String)
        ensures
            *self is Contention ==> r@ == "an incompatible lock is already held"@,
            *self is Io ==> r@ == "the underlying lock operation failed"@,
    {
        match self {
            LockError::Contention => "an incompatible lock is already held".to_string(),
            LockError::Io(_) => "the underlying lock operation failed".to_string(),
        }
    }
}

/// Sorts a failed OS locking call into the taxonomy: a would-block report is
/// contention, anything else is an underlying I/O failure carrying its code.
pub fn classify_os_error(would_block: bool, code: i32) -> (e: LockError)
    ensures
        would_block ==> e is Contention,
        !would_block ==> e == LockError::Io(code),
{
    if would_block {
        LockError::Contention
    } else {
        LockError::Io(code)
    }
}

} // verus!
