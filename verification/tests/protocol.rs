//! Tests of the locking protocol: grant rules, release, and the
//! destruction policy.

use locked_file::{
    classify_os_error, unlock_drop_action, DropAction, FileLock, FileResource, LockError,
    LockMode, LockTable, OwnedFileLock, Ownership,
};

#[test]
fn p1_exclusive_blocks_any_nonblocking_acquire() {
    let mut t = LockTable::new();
    let mut holder = FileLock::try_wrap_exclusive(&mut t).unwrap();

    let shared_attempt = FileLock::try_wrap_shared(&mut t);
    assert_eq!(shared_attempt.unwrap_err(), LockError::Contention);

    let exclusive_attempt = FileLock::try_wrap_exclusive(&mut t);
    assert_eq!(exclusive_attempt.unwrap_err(), LockError::Contention);

    holder.release(&mut t);
    assert!(FileLock::try_wrap_shared(&mut t).is_ok());
}

#[test]
fn p2_two_shared_wrappers_coexist() {
    let mut t = LockTable::new();
    let a = FileLock::try_wrap_shared(&mut t);
    let b = FileLock::try_wrap_shared(&mut t);
    assert!(a.is_ok());
    assert!(b.is_ok());
    assert_eq!(t.shared_count(), 2);
    assert!(!t.has_exclusive());
}

#[test]
fn p3_release_leaves_no_lingering_lock() {
    let mut t = LockTable::new();

    let mut ex = FileLock::try_wrap_exclusive(&mut t).unwrap();
    ex.release(&mut t);
    let mut sh = FileLock::try_wrap_shared(&mut t).unwrap();
    sh.release(&mut t);

    assert!(FileLock::try_wrap_exclusive(&mut t).is_ok());
}

#[test]
fn p4_ownership_moves_on_success_and_returns_on_failure() {
    let mut t = LockTable::new();
    let file = FileResource::from_contents(vec![1u8, 2, 3]);
    let mut g = OwnedFileLock::try_acquire_exclusive(file, &mut t).unwrap();
    assert_eq!(g.file().contents().as_slice(), &[1u8, 2, 3]);

    let other = FileResource::from_contents(vec![9u8, 9]);
    let (back, err) = OwnedFileLock::try_acquire_shared(other, &mut t).unwrap_err();
    assert_eq!(err, LockError::Contention);
    assert_eq!(back.contents().as_slice(), &[9u8, 9]);
    assert_eq!(back.position(), 0);

    g.release(&mut t);
    let returned = g.into_file();
    assert_eq!(returned.contents().as_slice(), &[1u8, 2, 3]);
}

#[test]
fn p6_second_release_is_a_no_op() {
    let mut t = LockTable::new();
    let mut a = FileLock::try_wrap_shared(&mut t).unwrap();
    let _b = FileLock::try_wrap_shared(&mut t).unwrap();
    assert_eq!(t.shared_count(), 2);

    a.release(&mut t);
    assert_eq!(t.shared_count(), 1);
    a.release(&mut t);
    assert_eq!(t.shared_count(), 1);
}

#[test]
fn p6_second_release_is_a_no_op_for_owning_guard() {
    let mut t = LockTable::new();
    let file = FileResource::empty();
    let mut g = OwnedFileLock::try_acquire_exclusive(file, &mut t).unwrap();
    assert!(t.has_exclusive());

    g.release(&mut t);
    assert!(!t.has_exclusive());
    g.release(&mut t);
    assert!(!t.has_exclusive());
    assert_eq!(t.shared_count(), 0);
}

#[test]
fn p7_scenario_exclusive_then_shared_retry() {
    let mut t = LockTable::new();

    let mut a = FileLock::try_wrap_exclusive(&mut t).unwrap();

    let b_first = FileLock::try_wrap_shared(&mut t);
    assert_eq!(b_first.unwrap_err(), LockError::Contention);

    a.release(&mut t);

    let b_retry = FileLock::try_wrap_shared(&mut t);
    assert!(b_retry.is_ok());
}

#[test]
fn p8_scenario_two_shared_released_first_in_first_out() {
    let mut t = LockTable::new();
    let mut a = FileLock::try_wrap_shared(&mut t).unwrap();
    let mut b = FileLock::try_wrap_shared(&mut t).unwrap();

    a.release(&mut t);
    b.release(&mut t);
    assert_eq!(t.shared_count(), 0);
    assert!(FileLock::try_wrap_exclusive(&mut t).is_ok());
}

#[test]
fn p8_scenario_two_shared_released_last_in_first_out() {
    let mut t = LockTable::new();
    let mut a = FileLock::try_wrap_shared(&mut t).unwrap();
    let mut b = FileLock::try_wrap_shared(&mut t).unwrap();

    b.release(&mut t);
    a.release(&mut t);
    assert_eq!(t.shared_count(), 0);
    assert!(FileLock::try_wrap_exclusive(&mut t).is_ok());
}

#[test]
fn blocking_wrappers_acquire_when_granted() {
    let mut t = LockTable::new();
    let mut a = FileLock::wrap_shared(&mut t);
    let mut b = FileLock::wrap_shared(&mut t);
    assert_eq!(t.shared_count(), 2);
    a.release(&mut t);
    b.release(&mut t);

    let mut c = FileLock::wrap_exclusive(&mut t);
    assert!(t.has_exclusive());
    c.release(&mut t);
    assert!(!t.has_exclusive());
}

#[test]
fn blocking_owned_acquire_when_granted() {
    let mut t = LockTable::new();
    let file = FileResource::from_contents(vec![4u8]);
    let mut g = OwnedFileLock::acquire_shared(file, &mut t);
    assert_eq!(t.shared_count(), 1);
    g.release(&mut t);

    let file2 = FileResource::empty();
    let mut h = OwnedFileLock::acquire_exclusive(file2, &mut t);
    assert!(t.has_exclusive());
    h.release(&mut t);
}

#[test]
fn shared_then_exclusive_attempt_is_contention() {
    let mut t = LockTable::new();
    let _sh = FileLock::try_wrap_shared(&mut t).unwrap();
    let ex = FileLock::try_wrap_exclusive(&mut t);
    assert_eq!(ex.unwrap_err(), LockError::Contention);
}

#[test]
fn mode_compatibility_rule() {
    assert!(LockMode::Shared.compatible_with(&LockMode::Shared));
    assert!(!LockMode::Shared.compatible_with(&LockMode::Exclusive));
    assert!(!LockMode::Exclusive.compatible_with(&LockMode::Shared));
    assert!(!LockMode::Exclusive.compatible_with(&LockMode::Exclusive));
}

#[test]
fn classification_of_os_errors() {
    assert_eq!(classify_os_error(true, 11), LockError::Contention);
    assert_eq!(classify_os_error(false, 13), LockError::Io(13));
    assert_eq!(classify_os_error(false, 0), LockError::Io(0));
}

#[test]
fn error_predicates_and_description() {
    assert!(LockError::Contention.is_contention());
    assert!(!LockError::Io(13).is_contention());
    assert_eq!(
        LockError::Contention.describe(),
        "an incompatible lock is already held"
    );
    assert_eq!(
        LockError::Io(13).describe(),
        "the underlying lock operation failed"
    );
}

#[test]
fn drop_policy_decision_table() {
    assert_eq!(
        unlock_drop_action(true, Ownership::Owning, false),
        DropAction::Silent
    );
    assert_eq!(
        unlock_drop_action(true, Ownership::Borrowing, true),
        DropAction::Silent
    );
    assert_eq!(
        unlock_drop_action(false, Ownership::Owning, false),
        DropAction::Report
    );
    assert_eq!(
        unlock_drop_action(false, Ownership::Owning, true),
        DropAction::Report
    );
    assert_eq!(
        unlock_drop_action(false, Ownership::Borrowing, true),
        DropAction::Report
    );
    assert_eq!(
        unlock_drop_action(false, Ownership::Borrowing, false),
        DropAction::Abort
    );
}
