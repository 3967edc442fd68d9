//! A verified model of a scope-bound advisory file lock: a guard acquires a
//! shared or exclusive lock at construction and releases it exactly once.
//!
//! The model follows the advisory rule the host OS applies per file — any
//! number of shared locks, or one exclusive lock — kept in a [`LockTable`].
//! A guard comes in two variants: [`FileLock`] borrows the file resource it
//! guards, [`OwnedFileLock`] owns it outright. Both move through the
//! protocol exactly once: locked at successful construction, released at
//! destruction, with a second release a proven no-op. The file itself is a
//! [`FileResource`] of bytes and a cursor; the guards forward read, write,
//! flush and seek to it byte for byte.

mod errors;
mod file;
mod guard;
mod mode;
mod owned;
mod policy;
mod table;

pub use errors::{classify_os_error, LockError};
pub use file::{
    lemma_write_is_local, lemma_write_read_round_trip, read_effect, seek_target, write_effect,
    FileResource, SeekError, Whence,
};
pub use guard::{
    lemma_exclusive_guard_blocks, lemma_exclusive_guard_release_unblocks, FileLock,
};
pub use mode::{modes_compatible, LockMode};
pub use owned::OwnedFileLock;
pub use policy::{drop_action_spec, unlock_drop_action, DropAction, Ownership};
pub use table::{
    lemma_exclusive_excludes_all, lemma_grant_release_round_trip,
    lemma_release_of_last_lock_frees, lemma_shared_admits_shared, LockTable,
};
