//! The lock guards. A guard is created by acquiring a lock on a file's
//! advisory-lock state and moves through the protocol's states exactly once:
//! locked at successful construction, released at destruction, never back.
//!
//! Two variants exist. [`FileLock`] borrows: it holds no resource, and its
//! I/O takes the caller-owned resource for the duration of each call.
//! [`OwnedFileLock`] owns: the resource moves into the guard on successful
//! construction and stays there; on failure it is handed back untouched.

use vstd::prelude::*;

use crate::errors::LockError;
use crate::file::{read_effect, seek_target, write_effect, FileResource, SeekError, Whence};
use crate::mode::LockMode;
use crate::table::LockTable;

verus! {

/// A guard over a file resource owned by the caller. It records the mode it
/// acquired and whether it has already released it; a released guard is
/// spent and releasing it again does nothing.
#[derive(Debug)]
pub struct FileLock {
    mode: LockMode,
    released: bool,
}

impl FileLock {
    /// The mode this guard acquired; fixed at construction.
    pub closed spec fn mode_spec(self) -> LockMode {
        self.mode
    }

    /// Whether this guard has already released its lock.
    pub closed spec fn is_released(self) -> bool {
        self.released
    }

    /// The guard still accounts for one lock of its mode in the table.
    pub open spec fn locks(self, t: LockTable) -> bool {
        !self.is_released() ==> t.accounts_for(self.mode_spec())
    }

    /// A non-blocking acquisition of `mode`: succeeds exactly when the
    /// advisory rule grants the lock now, and otherwise changes nothing and
    /// reports contention.
    pub fn try_wrap(t: &mut LockTable, mode: LockMode) -> (r: Result<FileLock, LockError>)
        requires
            old(t).wf(),
            old(t).shared < usize::MAX,
        ensures
            final(t).wf(),
            r is Ok <==> old(t).grants(mode),
            r matches Ok(g) ==> g.mode_spec() == mode && !g.is_released() && *final(t)
                == old(t).with_granted(mode),
            r is Err ==> *final(t) == *old(t) && r == Err::<FileLock, LockError>(
                LockError::Contention,
            ),
    {
        match t.try_acquire(mode) {
            Ok(()) => Ok(FileLock { mode, released: false }),
            Err(e) => Err(e),
        }
    }

    /// A blocking acquisition of `mode`, seen at the instant the OS grants
    /// it: the grant succeeds and the guard holds the lock.
    pub fn wrap(t: &mut LockTable, mode: LockMode) -> (g: FileLock)
        requires
            old(t).wf(),
            old(t).shared < usize::MAX,
            old(t).grants(mode),
        ensures
            final(t).wf(),
            g.mode_spec() == mode && !g.is_released(),
            *final(t) == old(t).with_granted(mode),
    {
        t.acquire(mode);
        FileLock { mode, released: false }
    }

    /// Non-blocking shared acquisition; fails with contention exactly when
    /// an exclusive lock is held elsewhere.
    pub fn try_wrap_shared(t: &mut LockTable) -> (r: Result<FileLock, LockError>)
        requires
            old(t).wf(),
            old(t).shared < usize::MAX,
        ensures
            final(t).wf(),
            r is Ok <==> old(t).grants(LockMode::Shared),
            r matches Ok(g) ==> g.mode_spec() == LockMode::Shared && !g.is_released() && *final(t)
                == old(t).with_granted(LockMode::Shared),
            r is Err ==> *final(t) == *old(t) && r == Err::<FileLock, LockError>(
                LockError::Contention,
            ),
    {
        Self::try_wrap(t, LockMode::Shared)
    }

    /// Blocking shared acquisition, seen at the instant the OS grants it.
    pub fn wrap_shared(t: &mut LockTable) -> (g: FileLock)
        requires
            old(t).wf(),
            old(t).shared < usize::MAX,
            old(t).grants(LockMode::Shared),
        ensures
            final(t).wf(),
            g.mode_spec() == LockMode::Shared && !g.is_released(),
            *final(t) == old(t).with_granted(LockMode::Shared),
    {
        Self::wrap(t, LockMode::Shared)
    }

    /// Non-blocking exclusive acquisition; fails with contention exactly
    /// when any other lock, shared or exclusive, is held elsewhere.
    pub fn try_wrap_exclusive(t: &mut LockTable) -> (r: Result<FileLock, LockError>)
        requires
            old(t).wf(),
            old(t).shared < usize::MAX,
        ensures
            final(t).wf(),
            r is Ok <==> old(t).grants(LockMode::Exclusive),
            r matches Ok(g) ==> g.mode_spec() == LockMode::Exclusive && !g.is_released()
                && *final(t) == old(t).with_granted(LockMode::Exclusive),
            r is Err ==> *final(t) == *old(t) && r == Err::<FileLock, LockError>(
                LockError::Contention,
            ),
    {
        Self::try_wrap(t, LockMode::Exclusive)
    }

    /// Blocking exclusive acquisition, seen at the instant the OS grants it.
    pub fn wrap_exclusive(t: &mut LockTable) -> (g: FileLock)
        requires
            old(t).wf(),
            old(t).shared < usize::MAX,
            old(t).grants(LockMode::Exclusive),
        ensures
            final(t).wf(),
            g.mode_spec() == LockMode::Exclusive && !g.is_released(),
            *final(t) == old(t).with_granted(LockMode::Exclusive),
    {
        Self::wrap(t, LockMode::Exclusive)
    }

    /// Releases the guard's lock exactly once. The first call removes the
    /// guard's lock from the table and marks the guard spent; any later call
    /// leaves the table untouched.
    pub fn release(&mut self, t: &mut LockTable)
        requires
            old(t).wf(),
            old(self).locks(*old(t)),
        ensures
            final(t).wf(),
            final(self).is_released(),
            final(self).mode_spec() == old(self).mode_spec(),
            old(self).is_released() ==> *final(t) == *old(t),
            !old(self).is_released() ==> *final(t) == old(t).with_released(old(self).mode_spec()),
    {
        if !self.released {
            t.release(self.mode);
            self.released = true;
        }
    }

    /// Reads through the guard: forwards to the resource's read, byte for
    /// byte, leaving the guard as it is.
    pub fn read(&self, f: &mut FileResource, n: usize) -> (out: Vec<u8>)
        requires
            !self.is_released(),
        ensures
            final(f).data == old(f).data,
            out@ == read_effect(old(f).data@, old(f).pos as int, n as int),
            final(f).pos == old(f).pos + out@.len(),
    {
        f.read(n)
    }

    /// Writes through the guard: forwards to the resource's write, byte for
    /// byte, leaving the guard as it is.
    pub fn write(&self, f: &mut FileResource, buf: &Vec<u8>) -> (n: usize)
        requires
            !self.is_released(),
            old(f).pos + buf@.len() <= usize::MAX,
        ensures
            n == buf@.len(),
            final(f).data@ == write_effect(old(f).data@, old(f).pos as int, buf@),
            final(f).pos == old(f).pos + buf@.len(),
    {
        f.write(buf)
    }

    /// Flushes through the guard: the resource is unbuffered, so nothing
    /// changes.
    pub fn flush(&self, f: &mut FileResource)
        requires
            !self.is_released(),
        ensures
            *final(f) == *old(f),
    {
        f.flush()
    }

    /// Seeks through the guard: forwards to the resource's seek with its
    /// exact result and error behaviour.
    pub fn seek(&self, f: &mut FileResource, w: Whence) -> (r: Result<usize, SeekError>)
        requires
            !self.is_released(),
            seek_target(*old(f), w) <= usize::MAX,
        ensures
            final(f).data == old(f).data,
            seek_target(*old(f), w) < 0 ==> r == Err::<usize, SeekError>(
                SeekError::NegativePosition,
            ) && final(f).pos == old(f).pos,
            seek_target(*old(f), w) >= 0 ==> r == Ok::<usize, SeekError>(
                seek_target(*old(f), w) as usize,
            ) && final(f).pos == seek_target(*old(f), w),
    {
        f.seek(w)
    }
}

/// Mutual exclusion at the guard level: while a guard that acquired an
/// exclusive lock has not released it, the file grants no acquisition of
/// any mode, so every non-blocking attempt by another wrapper fails with
/// contention.
pub proof fn lemma_exclusive_guard_blocks(g: FileLock, t: LockTable, m: LockMode)
    requires
        t.wf(),
        !g.is_released(),
        g.mode_spec() is Exclusive,
        g.locks(t),
    ensures
        !t.grants(m),
{
}

/// Destroying the exclusive holder unblocks the file: once the guard's
/// lock is released, an acquisition of any mode is granted again.
pub proof fn lemma_exclusive_guard_release_unblocks(g: FileLock, t: LockTable, m: LockMode)
    requires
        t.wf(),
        !g.is_released(),
        g.mode_spec() is Exclusive,
        g.locks(t),
    ensures
        t.with_released(g.mode_spec()).grants(m),
{
}

} // verus!
