//! A model of the OS advisory-lock state of one file.
//!
//! The OS grants a lock by looking only at what is currently held on the
//! file: any number of shared locks, or one exclusive lock. This type keeps
//! that state — how many shared locks are out, and whether an exclusive one
//! is — and answers acquisition requests by the advisory rule.

use vstd::prelude::*;

use crate::errors::LockError;
use crate::mode::LockMode;

verus! {

/// The advisory-lock state of a single file: the locks currently held on it
/// across all cooperating holders.
#[derive(Clone, Copy, Debug, PartialEq, Eq, Structural)]
pub struct LockTable {
    /// How many shared locks are currently held.
    pub shared: usize,
    /// Whether an exclusive lock is currently held.
    pub exclusive: bool,
}

impl LockTable {
    /// An exclusive lock never coexists with any other lock.
    pub open spec fn wf(self) -> bool {
        self.exclusive ==> self.shared == 0
    }

    /// No lock at all is held.
    pub open spec fn is_free(self) -> bool {
        self.shared == 0 && !self.exclusive
    }

    /// The advisory rule: a lock of mode `m` may be granted now exactly when
    /// `m` is compatible with every lock currently held.
    pub open spec fn grants(self, m: LockMode) -> bool {
        match m {
            LockMode::Shared => !self.exclusive,
            LockMode::Exclusive => self.is_free(),
        }
    }

    /// The state once a lock of mode `m` has been granted.
    pub open spec fn with_granted(self, m: LockMode) -> LockTable {
        match m {
            LockMode::Shared => LockTable { shared: (self.shared + 1) as usize, ..self },
            LockMode::Exclusive => LockTable { exclusive: true, ..self },
        }
    }

    /// The state once a held lock of mode `m` has been released.
    pub open spec fn with_released(self, m: LockMode) -> LockTable {
        match m {
            LockMode::Shared => LockTable { shared: (self.shared - 1) as usize, ..self },
            LockMode::Exclusive => LockTable { exclusive: false, ..self },
        }
    }

    /// The state accounts for a held lock of mode `m`, so releasing one is
    /// meaningful.
    pub open spec fn accounts_for(self, m: LockMode) -> bool {
        match m {
            LockMode::Shared => self.shared > 0,
            LockMode::Exclusive => self.exclusive,
        }
    }

    /// A file with no locks held.
    pub fn new() -> (t: LockTable)
        ensures
            t.is_free(),
            t.wf(),
    {
        LockTable { shared: 0, exclusive: false }
    }

    /// How many shared locks are currently held.
    pub fn shared_count(&self) -> (n: usize)
        ensures
            n == self.shared,
    {
        self.shared
    }

    /// Whether an exclusive lock is currently held.
    pub fn has_exclusive(&self) -> (b: bool)
        ensures
            b == self.exclusive,
    {
        self.exclusive
    }

    /// A non-blocking acquisition attempt: grants the lock exactly when the
    /// advisory rule allows it now, and otherwise fails with contention,
    /// leaving the state unchanged.
    pub fn try_acquire(&mut self, m: LockMode) -> (r: Result<(), LockError>)
        requires
            old(self).wf(),
            old(self).shared < usize::MAX,
        ensures
            final(self).wf(),
            r is Ok <==> old(self).grants(m),
            r is Ok ==> *final(self) == old(self).with_granted(m),
            r is Err ==> *final(self) == *old(self) && r == Err::<(), LockError>(
                LockError::Contention,
            ),
    {
        match m {
            LockMode::Shared => {
                if self.exclusive {
                    Err(LockError::Contention)
                } else {
                    self.shared = self.shared + 1;
                    Ok(())
                }
            },
            LockMode::Exclusive => {
                if self.exclusive || self.shared > 0 {
                    Err(LockError::Contention)
                } else {
                    self.exclusive = true;
                    Ok(())
                }
            },
        }
    }

    /// A blocking acquisition, seen at the instant the OS grants it: the
    /// caller has waited until the advisory rule allows the lock, and the
    /// grant then always succeeds.
    pub fn acquire(&mut self, m: LockMode)
        requires
            old(self).wf(),
            old(self).shared < usize::MAX,
            old(self).grants(m),
        ensures
            final(self).wf(),
            *final(self) == old(self).with_granted(m),
    {
        match m {
            LockMode::Shared => {
                self.shared = self.shared + 1;
            },
            LockMode::Exclusive => {
                self.exclusive = true;
            },
        }
    }

    /// Releases one held lock of mode `m`.
    pub fn release(&mut self, m: LockMode)
        requires
            old(self).wf(),
            old(self).accounts_for(m),
        ensures
            final(self).wf(),
            *final(self) == old(self).with_released(m),
    {
        match m {
            LockMode::Shared => {
                self.shared = self.shared - 1;
            },
            LockMode::Exclusive => {
                self.exclusive = false;
            },
        }
    }
}

/// Mutual exclusion: while an exclusive lock is held, no acquisition of any
/// mode can be granted on the same file.
pub proof fn lemma_exclusive_excludes_all(t: LockTable, m: LockMode)
    requires
        t.wf(),
        t.exclusive,
    ensures
        !t.grants(m),
{
}

/// Shared compatibility: while only shared locks are held, another shared
/// lock is granted, and holds of any number of them — granting one more
/// shared lock never blocks a further shared request.
pub proof fn lemma_shared_admits_shared(t: LockTable)
    requires
        t.wf(),
        !t.exclusive,
        t.shared < usize::MAX,
    ensures
        t.grants(LockMode::Shared),
        t.with_granted(LockMode::Shared).grants(LockMode::Shared),
{
}

/// Release restores availability: when the only lock held on the file is
/// released, an acquisition of any mode is granted again.
pub proof fn lemma_release_of_last_lock_frees(t: LockTable, held: LockMode, m: LockMode)
    requires
        t.wf(),
        t.accounts_for(held),
        held is Shared ==> t.shared == 1,
    ensures
        t.with_released(held).is_free(),
        t.with_released(held).grants(m),
{
}

/// Granting and then releasing a lock returns the file to exactly the state
/// it had before the grant.
pub proof fn lemma_grant_release_round_trip(t: LockTable, m: LockMode)
    requires
        t.wf(),
        t.shared < usize::MAX,
        t.grants(m),
    ensures
        t.with_granted(m).accounts_for(m),
        t.with_granted(m).with_released(m) == t,
{
}

} // verus!
