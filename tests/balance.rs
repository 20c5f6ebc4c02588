use confidential_tokens::balance::{transfer, BalanceError, ConfidentialBalance};

fn account(available: u64, pending: u64, pending_count: u64, max_pending: u64) -> ConfidentialBalance {
    ConfidentialBalance { available, pending, pending_count, max_pending }
}

#[test]
fn new_account_is_empty() {
    let b = ConfidentialBalance::new(65536);
    assert_eq!(b, account(0, 0, 0, 65536));
}

#[test]
fn deposit_raises_pending_counter_by_one() {
    let mut b = account(10, 5, 1, 4);
    assert_eq!(b.deposit(7), Ok(()));
    assert_eq!(b, account(10, 12, 2, 4));
    assert_eq!(b.deposit(3), Ok(()));
    assert_eq!(b, account(10, 15, 3, 4));
}

#[test]
fn deposit_at_capacity_is_refused() {
    let mut b = account(0, 9, 2, 2);
    assert_eq!(b.deposit(1), Err(BalanceError::PendingCapacityExceeded));
    assert_eq!(b, account(0, 9, 2, 2));
    assert!(!b.has_pending_capacity());
}

#[test]
fn deposit_fills_exactly_to_capacity() {
    let mut b = ConfidentialBalance::new(2);
    assert_eq!(b.deposit(1), Ok(()));
    assert_eq!(b.deposit(1), Ok(()));
    assert_eq!(b.deposit(1), Err(BalanceError::PendingCapacityExceeded));
    assert_eq!(b.pending_count, 2);
    assert_eq!(b.pending, 2);
}

#[test]
fn deposit_overflow_is_refused() {
    let mut b = account(0, u64::MAX - 1, 1, 10);
    assert_eq!(b.deposit(2), Err(BalanceError::Overflow));
    assert_eq!(b, account(0, u64::MAX - 1, 1, 10));
    assert_eq!(b.deposit(1), Ok(()));
    assert_eq!(b.pending, u64::MAX);
}

#[test]
fn apply_with_nothing_pending_keeps_available() {
    let mut b = account(42, 0, 0, 8);
    assert_eq!(b.apply_pending(), Ok(()));
    assert_eq!(b, account(42, 0, 0, 8));
    assert_eq!(b.apply_pending(), Ok(()));
    assert_eq!(b.available, 42);
}

#[test]
fn apply_merges_pending_and_resets_counter() {
    let mut b = account(100, 50, 3, 8);
    assert_eq!(b.apply_pending(), Ok(()));
    assert_eq!(b, account(150, 0, 0, 8));
}

#[test]
fn apply_overflow_is_refused() {
    let mut b = account(u64::MAX, 1, 1, 8);
    assert_eq!(b.apply_pending(), Err(BalanceError::Overflow));
    assert_eq!(b, account(u64::MAX, 1, 1, 8));
}

#[test]
fn debit_leaves_difference() {
    let mut b = account(100, 7, 1, 8);
    assert!(b.can_debit(100));
    assert_eq!(b.debit(30), Ok(()));
    assert_eq!(b, account(70, 7, 1, 8));
    assert_eq!(b.debit(70), Ok(()));
    assert_eq!(b.available, 0);
}

#[test]
fn debit_over_available_is_refused() {
    let mut b = account(100, 0, 0, 8);
    assert!(!b.can_debit(150));
    assert_eq!(b.debit(150), Err(BalanceError::InsufficientAvailable));
    assert_eq!(b, account(100, 0, 0, 8));
}

#[test]
fn transfer_moves_amount_to_recipient_pending() {
    let mut s = account(100, 0, 0, 8);
    let mut r = account(5, 1, 1, 8);
    assert_eq!(transfer(&mut s, &mut r, 40), Ok(()));
    assert_eq!(s, account(60, 0, 0, 8));
    assert_eq!(r, account(5, 41, 2, 8));
}

#[test]
fn transfer_over_available_changes_nothing() {
    let mut s = account(100, 0, 0, 8);
    let mut r = account(0, 0, 0, 8);
    assert_eq!(transfer(&mut s, &mut r, 101), Err(BalanceError::InsufficientAvailable));
    assert_eq!(s, account(100, 0, 0, 8));
    assert_eq!(r, account(0, 0, 0, 8));
}

#[test]
fn transfer_to_full_recipient_changes_nothing() {
    let mut s = account(100, 0, 0, 8);
    let mut r = account(0, 3, 1, 1);
    assert_eq!(transfer(&mut s, &mut r, 10), Err(BalanceError::PendingCapacityExceeded));
    assert_eq!(s, account(100, 0, 0, 8));
    assert_eq!(r, account(0, 3, 1, 1));
}
