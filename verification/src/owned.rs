//! The owning lock guard: on successful construction the file resource
//! moves into the guard and stays there for the guard's whole lifetime; on
//! a failed construction the resource is handed back to the caller intact,
//! with no lock held.

use vstd::prelude::*;

use crate::errors::LockError;
use crate::file::{read_effect, seek_target, write_effect, FileResource, SeekError, Whence};
use crate::mode::LockMode;
use crate::table::LockTable;

verus! {

/// A guard that owns its file resource outright. The guard is the sole
/// owner from successful construction on; the lock is held until the guard
/// releases it, exactly once.
#[derive(Debug)]
pub struct OwnedFileLock {
    file: FileResource,
    mode: LockMode,
    released: bool,
}

impl OwnedFileLock {
    /// The resource the guard owns.
    pub closed spec fn file_spec(self) -> FileResource {
        self.file
    }

    /// The mode this guard acquired; fixed at construction.
    pub closed spec fn mode_spec(self) -> LockMode {
        self.mode
    }

    /// Whether this guard has already released its lock.
    pub closed spec fn is_released(self) -> bool {
        self.released
    }

    /// The guard still accounts for one lock of its mode in the table.
    pub open spec fn locks(self, t: LockTable) -> bool {
        !self.is_released() ==> t.accounts_for(self.mode_spec())
    }

    /// A non-blocking acquisition of `mode` that takes ownership of `file`
    /// on success. On failure nothing is locked and `file` comes back to
    /// the caller exactly as it was given.
    pub fn try_acquire(file: FileResource, t: &mut LockTable, mode: LockMode) -> (r: Result<
        OwnedFileLock,
        (FileResource, LockError),
    >)
        requires
            old(t).wf(),
            old(t).shared < usize::MAX,
        ensures
            final(t).wf(),
            r is Ok <==> old(t).grants(mode),
            r matches Ok(g) ==> g.file_spec() == file && g.mode_spec() == mode && !g.is_released()
                && *final(t) == old(t).with_granted(mode),
            r matches Err(back) ==> back.0 == file && back.1 == LockError::Contention && *final(t)
                == *old(t),
    {
        match t.try_acquire(mode) {
            Ok(()) => Ok(OwnedFileLock { file, mode, released: false }),
            Err(e) => Err((file, e)),
        }
    }

    /// A blocking acquisition of `mode`, seen at the instant the OS grants
    /// it, that takes ownership of `file`.
    pub fn acquire(file: FileResource, t: &mut LockTable, mode: LockMode) -> (g: OwnedFileLock)
        requires
            old(t).wf(),
            old(t).shared < usize::MAX,
            old(t).grants(mode),
        ensures
            final(t).wf(),
            g.file_spec() == file && g.mode_spec() == mode && !g.is_released(),
            *final(t) == old(t).with_granted(mode),
    {
        t.acquire(mode);
        OwnedFileLock { file, mode, released: false }
    }

    /// Non-blocking shared acquisition; fails with contention exactly when
    /// an exclusive lock is held elsewhere, returning the resource.
    pub fn try_acquire_shared(file: FileResource, t: &mut LockTable) -> (r: Result<
        OwnedFileLock,
        (FileResource, LockError),
    >)
        requires
            old(t).wf(),
            old(t).shared < usize::MAX,
        ensures
            final(t).wf(),
            r is Ok <==> old(t).grants(LockMode::Shared),
            r matches Ok(g) ==> g.file_spec() == file && g.mode_spec() == LockMode::Shared
                && !g.is_released() && *final(t) == old(t).with_granted(LockMode::Shared),
            r matches Err(back) ==> back.0 == file && back.1 == LockError::Contention && *final(t)
                == *old(t),
    {
        Self::try_acquire(file, t, LockMode::Shared)
    }

    /// Blocking shared acquisition, seen at the instant the OS grants it.
    pub fn acquire_shared(file: FileResource, t: &mut LockTable) -> (g: OwnedFileLock)
        requires
            old(t).wf(),
            old(t).shared < usize::MAX,
            old(t).grants(LockMode::Shared),
        ensures
            final(t).wf(),
            g.file_spec() == file && g.mode_spec() == LockMode::Shared && !g.is_released(),
            *final(t) == old(t).with_granted(LockMode::Shared),
    {
        Self::acquire(file, t, LockMode::Shared)
    }

    /// Non-blocking exclusive acquisition; fails with contention exactly
    /// when any other lock is held elsewhere, returning the resource.
    pub fn try_acquire_exclusive(file: FileResource, t: &mut LockTable) -> (r: Result<
        OwnedFileLock,
        (FileResource, LockError),
    >)
        requires
            old(t).wf(),
            old(t).shared < usize::MAX,
        ensures
            final(t).wf(),
            r is Ok <==> old(t).grants(LockMode::Exclusive),
            r matches Ok(g) ==> g.file_spec() == file && g.mode_spec() == LockMode::Exclusive
                && !g.is_released() && *final(t) == old(t).with_granted(LockMode::Exclusive),
            r matches Err(back) ==> back.0 == file && back.1 == LockError::Contention && *final(t)
                == *old(t),
    {
        Self::try_acquire(file, t, LockMode::Exclusive)
    }

    /// Blocking exclusive acquisition, seen at the instant the OS grants it.
    pub fn acquire_exclusive(file: FileResource, t: &mut LockTable) -> (g: OwnedFileLock)
        requires
            old(t).wf(),
            old(t).shared < usize::MAX,
            old(t).grants(LockMode::Exclusive),
        ensures
            final(t).wf(),
            g.file_spec() == file && g.mode_spec() == LockMode::Exclusive && !g.is_released(),
            *final(t) == old(t).with_granted(LockMode::Exclusive),
    {
        Self::acquire(file, t, LockMode::Exclusive)
    }

    /// Releases the guard's lock exactly once. The first call removes the
    /// guard's lock from the table and marks the guard spent; any later
    /// call leaves the table untouched. The owned resource is unaffected.
    pub fn release(&mut self, t: &mut LockTable)
        requires
            old(t).wf(),
            old(self).locks(*old(t)),
        ensures
            final(t).wf(),
            final(self).is_released(),
            final(self).mode_spec() == old(self).mode_spec(),
            final(self).file_spec() == old(self).file_spec(),
            old(self).is_released() ==> *final(t) == *old(t),
            !old(self).is_released() ==> *final(t) == old(t).with_released(old(self).mode_spec()),
    {
        if !self.released {
            t.release(self.mode);
            self.released = true;
        }
    }

    /// Consumes a spent guard and hands the owned resource back.
    pub fn into_file(self) -> (f: FileResource)
        requires
            self.is_released(),
        ensures
            f == self.file_spec(),
    {
        self.file
    }

    /// Direct read access to the owned resource, for operations the guard
    /// does not wrap.
    pub fn file(&self) -> (f: &FileResource)
        ensures
            f == &self.file_spec(),
    {
        &self.file
    }

    /// Reads through the guard: forwards to the owned resource's read, byte
    /// for byte.
    pub fn read(&mut self, n: usize) -> (out: Vec<u8>)
        requires
            !old(self).is_released(),
        ensures
            final(self).mode_spec() == old(self).mode_spec(),
            final(self).is_released() == old(self).is_released(),
            final(self).file_spec().data == old(self).file_spec().data,
            out@ == read_effect(old(self).file_spec().data@, old(self).file_spec().pos as int, n as int),
            final(self).file_spec().pos == old(self).file_spec().pos + out@.len(),
    {
        self.file.read(n)
    }

    /// Writes through the guard: forwards to the owned resource's write,
    /// byte for byte.
    pub fn write(&mut self, buf: &Vec<u8>) -> (n: usize)
        requires
            !old(self).is_released(),
            old(self).file_spec().pos + buf@.len() <= usize::MAX,
        ensures
            final(self).mode_spec() == old(self).mode_spec(),
            final(self).is_released() == old(self).is_released(),
            n == buf@.len(),
            final(self).file_spec().data@ == write_effect(
                old(self).file_spec().data@,
                old(self).file_spec().pos as int,
                buf@,
            ),
            final(self).file_spec().pos == old(self).file_spec().pos + buf@.len(),
    {
        self.file.write(buf)
    }

    /// Flushes through the guard: the resource is unbuffered, so nothing
    /// changes.
    pub fn flush(&mut self)
        requires
            !old(self).is_released(),
        ensures
            *final(self) == *old(self),
    {
        self.file.flush()
    }

    /// Seeks through the guard: forwards to the owned resource's seek with
    /// its exact result and error behaviour.
    pub fn seek(&mut self, w: Whence) -> (r: Result<usize, SeekError>)
        requires
            !old(self).is_released(),
            seek_target(old(self).file_spec(), w) <= usize::MAX,
        ensures
            final(self).mode_spec() == old(self).mode_spec(),
            final(self).is_released() == old(self).is_released(),
            final(self).file_spec().data == old(self).file_spec().data,
            seek_target(old(self).file_spec(), w) < 0 ==> r == Err::<usize, SeekError>(
                SeekError::NegativePosition,
            ) && final(self).file_spec().pos == old(self).file_spec().pos,
            seek_target(old(self).file_spec(), w) >= 0 ==> r == Ok::<usize, SeekError>(
                seek_target(old(self).file_spec(), w) as usize,
            ) && final(self).file_spec().pos == seek_target(old(self).file_spec(), w),
    {
        self.file.seek(w)
    }
}

} // verus!
