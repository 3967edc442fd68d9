//! Lock modes and the compatibility rule of advisory locking.

use vstd::prelude::*;

verus! {

/// The mode of an advisory lock, fixed when a guard is constructed.
#[derive(Clone, Copy, Debug, PartialEq, Eq, Structural)]
pub enum LockMode {
    /// Compatible with other shared locks, incompatible with exclusive locks.
    Shared,
    /// Incompatible with every other lock on the same resource.
    Exclusive,
}

/// Two locks may be held at the same time exactly when both are shared.
pub open spec fn modes_compatible(a: LockMode, b: LockMode) -> bool {
    a is Shared && b is Shared
}

impl LockMode {
    /// Decides whether a lock of mode `self` may coexist with one of mode `other`.
    pub fn compatible_with(&self, other: &LockMode) -> (r: bool)
        ensures
            r == modes_compatible(*self, *other),
    {
        match (self, other) {
            (LockMode::Shared, LockMode::Shared) => true,
            _ => false,
        }
    }
}

/// Compatibility does not depend on which of the two locks asks.
pub proof fn lemma_compatibility_symmetric(a: LockMode, b: LockMode)
    ensures
        modes_compatible(a, b) == modes_compatible(b, a),
{
}

} // verus!
