//! What a guard's destruction does when releasing the lock fails.
//!
//! Release runs on every exit path, so it cannot return an error to a caller.
//! An owning guard only reports the failure: the resource's lifetime is
//! ending anyway. A borrowing guard leaves a caller-owned resource behind in
//! a possibly-still-locked state, so during ordinary scope exit the failure
//! escalates to a fatal fault; while already unwinding from a prior failure
//! it is only reported, to avoid masking that failure or nesting faults.

use vstd::prelude::*;

verus! {

/// Whether the guard owns the underlying resource or borrows it.
#[derive(Clone, Copy, Debug, PartialEq, Eq, Structural)]
pub enum Ownership {
    /// The guard owns the resource; it is dropped with the guard.
    Owning,
    /// The guard borrows a resource that outlives it.
    Borrowing,
}

/// What destruction does after attempting to release the lock.
#[derive(Clone, Copy, Debug, PartialEq, Eq, Structural)]
pub enum DropAction {
    /// The release succeeded: nothing to do.
    Silent,
    /// Report the release failure as a best-effort diagnostic and go on.
    Report,
    /// Escalate the release failure to a fatal, unrecoverable fault.
    Abort,
}

/// The action destruction takes, from whether the release succeeded, which
/// ownership variant the guard is, and whether a prior failure is already
/// unwinding through the destruction.
pub open spec fn drop_action_spec(
    release_ok: bool,
    variant: Ownership,
    unwinding: bool,
) -> DropAction {
    if release_ok {
        DropAction::Silent
    } else if variant is Owning {
        DropAction::Report
    } else if unwinding {
        DropAction::Report
    } else {
        DropAction::Abort
    }
}

/// Decides what a guard's destruction does about the outcome of its release
/// step. A successful release is silent; a failed one is reported or, for a
/// borrowing guard during ordinary scope exit, escalated to a fatal fault.
pub fn unlock_drop_action(release_ok: bool, variant: Ownership, unwinding: bool) -> (a: DropAction)
    ensures
        a == drop_action_spec(release_ok, variant, unwinding),
{
    if release_ok {
        DropAction::Silent
    } else {
        match variant {
            Ownership::Owning => DropAction::Report,
            Ownership::Borrowing => {
                if unwinding {
                    DropAction::Report
                } else {
                    DropAction::Abort
                }
            },
        }
    }
}

/// Destruction never escalates while a prior failure is unwinding, so a
/// release failure can never turn an unwind into a nested fatal fault.
pub proof fn lemma_no_abort_while_unwinding(release_ok: bool, variant: Ownership)
    ensures
        drop_action_spec(release_ok, variant, true) != DropAction::Abort,
{
}

/// A successful release is always silent: destruction is only observable
/// when releasing the lock actually failed.
pub proof fn lemma_successful_release_is_silent(variant: Ownership, unwinding: bool)
    ensures
        drop_action_spec(true, variant, unwinding) == DropAction::Silent,
{
}

} // verus!
