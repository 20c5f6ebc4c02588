use confidential_tokens::balance::ConfidentialBalance;
use confidential_tokens::lifecycle::{
    same_address, Action, ContextStatus, OperationKind, ProofContext, LifecycleError, Outcome, Phase, ProofKind, ProofLifecycle,
};
use confidential_tokens::operation::{
    plan_transfer, plan_withdraw, settle_transfer, settle_withdraw, OperationError,
};

fn addr(b: u8) -> [u8; 32] {
    [b; 32]
}

fn account(available: u64, pending: u64, pending_count: u64, max_pending: u64) -> ConfidentialBalance {
    ConfidentialBalance { available, pending, pending_count, max_pending }
}

fn contexts(op: &ProofLifecycle) -> Vec<ProofContext> {
    (0..op.num_contexts()).map(|i| op.context(i)).collect()
}

/// Drives a lifecycle to its end, answering each action with the next
/// report in `reports`, and returns the actions that were asked for.
fn drive(op: &mut ProofLifecycle, reports: &[bool]) -> Vec<Action> {
    let mut actions = Vec::new();
    let mut k = 0;
    loop {
        let a = op.next_action();
        actions.push(a);
        if a == Action::Finish {
            break;
        }
        assert_eq!(op.record(reports[k]), Ok(()));
        k += 1;
    }
    assert_eq!(k, reports.len());
    actions
}

#[test]
fn same_address_compares_every_byte() {
    let a = addr(3);
    let mut b = addr(3);
    assert!(same_address(&a, &b));
    b[31] = 4;
    assert!(!same_address(&a, &b));
    b[31] = 3;
    b[0] = 0;
    assert!(!same_address(&a, &b));
}

#[test]
fn lifecycle_needs_a_record() {
    assert_eq!(ProofLifecycle::new(OperationKind::Withdraw, &Vec::new()).err(), Some(LifecycleError::NoContexts));
}

#[test]
fn lifecycle_refuses_reused_address() {
    let items = vec![(ProofKind::Equality, addr(1)), (ProofKind::Range, addr(2)), (ProofKind::Range, addr(1))];
    assert_eq!(ProofLifecycle::new(OperationKind::Withdraw, &items).err(), Some(LifecycleError::DuplicateAddress));
}

#[test]
fn new_lifecycle_plans_every_record() {
    let items = vec![(ProofKind::Equality, addr(1)), (ProofKind::Range, addr(2))];
    let op = ProofLifecycle::new(OperationKind::Withdraw, &items).unwrap();
    assert_eq!(op.phase(), Phase::Creating);
    assert_eq!(op.num_contexts(), 2);
    assert_eq!(op.context(0).kind, ProofKind::Equality);
    assert_eq!(op.context(1).kind, ProofKind::Range);
    assert_eq!(op.context(1).address, addr(2));
    assert_eq!(op.context(0).operation, OperationKind::Withdraw);
    assert!(contexts(&op).iter().all(|c| c.status == ContextStatus::Planned));
    assert_eq!(op.context_addresses(), vec![addr(1), addr(2)]);
    assert_eq!(op.next_action(), Action::CreateContext(0));
    assert_eq!(op.outcome(), Outcome::InProgress);
}

#[test]
fn withdraw_runs_create_consume_close() {
    let mut balance = account(100, 0, 0, 8);
    let mut op = plan_withdraw(&balance, 30, addr(1), addr(2)).unwrap();
    let actions = drive(&mut op, &[true, true, true, true, true]);
    assert_eq!(
        actions,
        vec![
            Action::CreateContext(0),
            Action::CreateContext(1),
            Action::SubmitConsuming,
            Action::CloseContext(0),
            Action::CloseContext(1),
            Action::Finish,
        ]
    );
    assert_eq!(op.outcome(), Outcome::Committed);
    assert!(contexts(&op).iter().all(|c| c.status == ContextStatus::Closed));
    assert!(op.pending_closure().is_empty());
    assert!(op.leaked().is_empty());
    assert_eq!(settle_withdraw(&op, &mut balance, 30), Ok(()));
    assert_eq!(balance, account(70, 0, 0, 8));
}

#[test]
fn withdraw_over_available_creates_no_record() {
    let balance = account(100, 0, 0, 8);
    assert_eq!(plan_withdraw(&balance, 150, addr(1), addr(2)).err(), Some(OperationError::InsufficientAvailable));
}

#[test]
fn withdraw_with_one_address_twice_is_refused() {
    let balance = account(100, 0, 0, 8);
    assert_eq!(plan_withdraw(&balance, 10, addr(1), addr(1)).err(), Some(OperationError::DuplicateAddress));
}

#[test]
fn transfer_over_available_creates_no_record() {
    let sender = account(100, 0, 0, 8);
    assert_eq!(
        plan_transfer(&sender, 150, addr(1), addr(2), addr(3)).err(),
        Some(OperationError::InsufficientAvailable)
    );
    assert_eq!(
        plan_transfer(&sender, 50, addr(1), addr(2), addr(2)).err(),
        Some(OperationError::DuplicateAddress)
    );
}

#[test]
fn partial_creation_skips_consuming() {
    let mut balance = account(100, 0, 0, 8);
    let mut op = plan_withdraw(&balance, 30, addr(1), addr(2)).unwrap();
    assert_eq!(op.record(true), Ok(()));
    assert_eq!(op.record(false), Ok(()));
    assert_eq!(op.phase(), Phase::Closing);
    assert_eq!(op.context(1).status, ContextStatus::CreateFailed);
    assert_eq!(op.pending_closure(), vec![addr(1)]);
    assert_eq!(op.next_action(), Action::CloseContext(0));
    assert_eq!(op.record(true), Ok(()));
    assert_eq!(op.next_action(), Action::Finish);
    assert_eq!(op.outcome(), Outcome::CreationFailed);
    assert!(op.pending_closure().is_empty());
    assert_eq!(settle_withdraw(&op, &mut balance, 30), Err(OperationError::ProofContextCreationFailed));
    assert_eq!(balance, account(100, 0, 0, 8));
}

#[test]
fn first_creation_failing_ends_at_once() {
    let mut op = plan_withdraw(&account(100, 0, 0, 8), 30, addr(1), addr(2)).unwrap();
    assert_eq!(op.record(false), Ok(()));
    assert_eq!(op.next_action(), Action::Finish);
    assert_eq!(op.outcome(), Outcome::CreationFailed);
    assert_eq!(op.context(1).status, ContextStatus::Planned);
}

#[test]
fn failed_consuming_still_closes_records() {
    let mut balance = account(100, 0, 0, 8);
    let mut op = plan_withdraw(&balance, 30, addr(1), addr(2)).unwrap();
    let actions = drive(&mut op, &[true, true, false, true, true]);
    assert_eq!(actions[3], Action::CloseContext(0));
    assert_eq!(op.outcome(), Outcome::ConsumingFailed);
    assert!(contexts(&op).iter().all(|c| c.status == ContextStatus::Closed));
    assert_eq!(settle_withdraw(&op, &mut balance, 30), Err(OperationError::ConsumingInstructionFailed));
    assert_eq!(balance, account(100, 0, 0, 8));
}

#[test]
fn refused_close_is_reported_and_keeps_commit() {
    let mut balance = account(100, 0, 0, 8);
    let mut op = plan_withdraw(&balance, 100, addr(1), addr(2)).unwrap();
    drive(&mut op, &[true, true, true, false, true]);
    assert_eq!(op.outcome(), Outcome::Committed);
    assert_eq!(op.leaked(), vec![addr(1)]);
    assert_eq!(op.context(1).status, ContextStatus::Closed);
    assert_eq!(settle_withdraw(&op, &mut balance, 100), Ok(()));
    assert_eq!(balance.available, 0);
}

#[test]
fn report_after_done_is_refused() {
    let mut op = plan_withdraw(&account(100, 0, 0, 8), 1, addr(1), addr(2)).unwrap();
    drive(&mut op, &[true, true, true, true, true]);
    assert_eq!(op.record(true), Err(LifecycleError::AlreadyDone));
    assert_eq!(op.outcome(), Outcome::Committed);
}

#[test]
fn settle_before_done_is_refused() {
    let mut balance = account(100, 0, 0, 8);
    let mut op = plan_withdraw(&balance, 30, addr(1), addr(2)).unwrap();
    assert_eq!(op.record(true), Ok(()));
    assert_eq!(settle_withdraw(&op, &mut balance, 30), Err(OperationError::NotFinished));
    assert_eq!(balance, account(100, 0, 0, 8));
}

#[test]
fn transfer_uses_three_records_all_closed() {
    let mut sender = account(100, 0, 0, 8);
    let mut recipient = account(20, 0, 0, 8);
    let mut op = plan_transfer(&sender, 40, addr(1), addr(2), addr(3)).unwrap();
    let kinds: Vec<ProofKind> = contexts(&op).iter().map(|c| c.kind).collect();
    assert!(contexts(&op).iter().all(|c| c.operation == OperationKind::Transfer));
    assert_eq!(kinds, vec![ProofKind::Equality, ProofKind::CiphertextValidity, ProofKind::Range]);
    let actions = drive(&mut op, &[true, true, true, true, true, true, true]);
    assert_eq!(actions.len(), 8);
    assert_eq!(actions[3], Action::SubmitConsuming);
    assert_eq!(actions[6], Action::CloseContext(2));
    assert!(contexts(&op).iter().all(|c| c.status == ContextStatus::Closed));
    assert_eq!(settle_transfer(&op, &mut sender, &mut recipient, 40), Ok(()));
    assert_eq!(sender, account(60, 0, 0, 8));
    assert_eq!(recipient, account(20, 40, 1, 8));
}

#[test]
fn transfer_to_full_recipient_is_reported() {
    let mut sender = account(100, 0, 0, 8);
    let mut recipient = account(0, 5, 1, 1);
    let mut op = plan_transfer(&sender, 40, addr(1), addr(2), addr(3)).unwrap();
    drive(&mut op, &[true, true, true, true, true, true, true]);
    assert_eq!(
        settle_transfer(&op, &mut sender, &mut recipient, 40),
        Err(OperationError::PendingCapacityExceeded)
    );
    assert_eq!(sender, account(100, 0, 0, 8));
    assert_eq!(recipient, account(0, 5, 1, 1));
}
