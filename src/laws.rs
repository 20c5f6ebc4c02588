use vstd::prelude::*;
use crate::balance::{apply_spec, credit_spec, debit_spec, BalanceError, ConfidentialBalance};
use crate::lifecycle::{
    kinds, planned, same_records, settled, OperationKind, Action, ContextStatus, Consumption, LifecycleState, Outcome, Phase,
    ProofContext, ProofKind,
};
use crate::operation::{transfer_items, withdraw_items};

verus! {

/// A deposit raises the pending counter by exactly one, and is refused with
/// `PendingCapacityExceeded` exactly when the counter has reached the
/// configured maximum.
pub proof fn deposit_raises_counter_by_one(b: ConfidentialBalance, amount: u64)
    requires
        b.wf(),
    ensures
        credit_spec(b, amount) is Ok ==> {
            let n = credit_spec(b, amount)->Ok_0;
            n.wf() && n.pending_count == b.pending_count + 1 && n.pending == b.pending + amount
        },
        credit_spec(b, amount) == Err::<ConfidentialBalance, BalanceError>(BalanceError::PendingCapacityExceeded)
            <==> b.pending_count == b.max_pending,
{
}

/// Applying the pending balance when nothing is pending changes nothing:
/// in particular the available balance stays as it was.
pub proof fn apply_without_pending_is_identity(b: ConfidentialBalance)
    requires
        b.wf(),
        b.pending_count == 0,
    ensures
        apply_spec(b) == Ok::<ConfidentialBalance, BalanceError>(b),
{
}

/// A withdraw of `amount` from an available balance that covers it leaves
/// the available balance less `amount`; and a committed withdraw attempt
/// used exactly one equality record and one range record, each of which has
/// been closed, or reported as leaked when closing it was refused.
pub proof fn withdraw_debits_and_closes(
    b: ConfidentialBalance,
    amount: u64,
    equality: [u8; 32],
    range: [u8; 32],
    m: LifecycleState,
)
    requires
        b.wf(),
        amount <= b.available,
        m.wf(),
        same_records(m.contexts, planned(OperationKind::Withdraw, withdraw_items(equality, range))),
        m.outcome() == Outcome::Committed,
    ensures
        debit_spec(b, amount) == Ok::<ConfidentialBalance, BalanceError>(
            ConfidentialBalance { available: (b.available - amount) as u64, ..b },
        ),
        kinds(m.contexts) == seq![ProofKind::Equality, ProofKind::Range],
        forall|i: int| 0 <= i < m.len() ==> settled(#[trigger] m.status(i)),
{
    assert(kinds(m.contexts) =~= seq![ProofKind::Equality, ProofKind::Range]);
}

/// A transfer of `amount` from a sender whose available balance covers it,
/// to a recipient that can take one more pending credit, lowers the
/// sender's available balance by `amount` and raises the recipient's
/// (pending) balance by `amount`; and a committed transfer attempt used
/// exactly one equality, one ciphertext-validity and one range record, each
/// of which has been closed, or reported as leaked.
pub proof fn transfer_moves_and_closes(
    sender: ConfidentialBalance,
    recipient: ConfidentialBalance,
    amount: u64,
    equality: [u8; 32],
    validity: [u8; 32],
    range: [u8; 32],
    m: LifecycleState,
)
    requires
        sender.wf(),
        recipient.wf(),
        amount <= sender.available,
        recipient.pending_count < recipient.max_pending,
        recipient.pending + amount <= u64::MAX,
        m.wf(),
        same_records(m.contexts, planned(OperationKind::Transfer, transfer_items(equality, validity, range))),
        m.outcome() == Outcome::Committed,
    ensures
        debit_spec(sender, amount) is Ok,
        debit_spec(sender, amount)->Ok_0.available == sender.available - amount,
        credit_spec(recipient, amount) is Ok,
        credit_spec(recipient, amount)->Ok_0.pending == recipient.pending + amount,
        credit_spec(recipient, amount)->Ok_0.available == recipient.available,
        kinds(m.contexts) == seq![ProofKind::Equality, ProofKind::CiphertextValidity, ProofKind::Range],
        forall|i: int| 0 <= i < m.len() ==> settled(#[trigger] m.status(i)),
{
    assert(kinds(m.contexts) =~= seq![ProofKind::Equality, ProofKind::CiphertextValidity, ProofKind::Range]);
}

/// The consuming instruction is owed only when every record exists.
pub proof fn consuming_needs_every_record(m: LifecycleState)
    requires
        m.wf(),
        m.action() == Action::SubmitConsuming,
    ensures
        forall|i: int| 0 <= i < m.len() ==> #[trigger] m.status(i) == ContextStatus::Created,
{
}

/// When creating a record fails, the consuming instruction is not sent, and
/// every record created before it is left awaiting closure.
pub proof fn failed_creation_skips_consuming(m: LifecycleState)
    requires
        m.wf(),
        m.phase == Phase::Creating,
    ensures
        m.step(false).consumption == Consumption::NotSubmitted,
        m.step(false).phase != Phase::Consuming,
        m.step(false).status(m.cursor) == ContextStatus::CreateFailed,
        forall|i: int| 0 <= i < m.created ==> #[trigger] m.step(false).status(i) == ContextStatus::Created,
        m.step(false).outcome() == Outcome::InProgress || m.step(false).outcome() == Outcome::CreationFailed,
{
    assert forall|i: int| 0 <= i < m.created implies #[trigger] m.step(false).status(i) == ContextStatus::Created by {
        assert(m.status(i) == ContextStatus::Created);
    }
}

/// After a failed creation, no later step sends the consuming instruction.
pub proof fn aborted_attempt_never_consumes(m: LifecycleState, ok: bool)
    requires
        m.wf(),
        m.phase == Phase::Closing || m.phase == Phase::Done,
        m.consumption == Consumption::NotSubmitted,
    ensures
        m.step(ok).consumption == Consumption::NotSubmitted,
        m.step(ok).phase != Phase::Consuming,
{
}

/// At the end of an attempt no record is left open: each was closed, had
/// its closing refused, or was never created.
pub proof fn done_leaves_nothing_open(m: LifecycleState)
    requires
        m.wf(),
        m.phase == Phase::Done,
    ensures
        forall|i: int| 0 <= i < m.len() ==> #[trigger] m.status(i) != ContextStatus::Created,
{
    assert forall|i: int| 0 <= i < m.len() implies #[trigger] m.status(i) != ContextStatus::Created by {
        if i < m.created {
            assert(settled(m.status(i)));
        } else if i > m.created {
            assert(m.status(i) == ContextStatus::Planned);
        }
    }
}

} // verus!
