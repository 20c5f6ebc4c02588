use vstd::prelude::*;
use crate::balance::{debit_spec, credit_spec, transfer, BalanceError, ConfidentialBalance};
use crate::lifecycle::{
    all_for, fresh_addresses, kinds, planned, Address, OperationKind, Outcome, Phase, ProofKind, ProofLifecycle,
};

verus! {

/// Why a withdraw or transfer did not change any balance.
#[derive(Debug, Clone, Copy, PartialEq, Eq, Structural)]
pub enum OperationError {
    /// The amount is larger than the decrypted available balance; refused
    /// before any record is created.
    InsufficientAvailable,
    /// Two records were given the same address.
    DuplicateAddress,
    /// A record could not be created; the consuming instruction was not sent.
    ProofContextCreationFailed,
    /// The consuming instruction failed; no balance changed.
    ConsumingInstructionFailed,
    /// The lifecycle has not reached its end.
    NotFinished,
    /// The recipient's pending accumulator is full.
    PendingCapacityExceeded,
    /// A balance would not fit in 64 bits.
    Overflow,
}

/// The records a withdraw needs: an equality proof, then a range proof.
pub open spec fn withdraw_items(equality: Address, range: Address) -> Seq<(ProofKind, Address)> {
    seq![(ProofKind::Equality, equality), (ProofKind::Range, range)]
}

/// The records a transfer needs: equality, ciphertext validity, range.
pub open spec fn transfer_items(equality: Address, validity: Address, range: Address) -> Seq<
    (ProofKind, Address),
> {
    seq![(ProofKind::Equality, equality), (ProofKind::CiphertextValidity, validity), (ProofKind::Range, range)]
}

pub open spec fn balance_error(e: BalanceError) -> OperationError {
    match e {
        BalanceError::PendingCapacityExceeded => OperationError::PendingCapacityExceeded,
        BalanceError::InsufficientAvailable => OperationError::InsufficientAvailable,
        BalanceError::Overflow => OperationError::Overflow,
    }
}

fn from_balance_error(e: BalanceError) -> (r: OperationError)
    ensures
        r == balance_error(e),
{
    match e {
        BalanceError::PendingCapacityExceeded => OperationError::PendingCapacityExceeded,
        BalanceError::InsufficientAvailable => OperationError::InsufficientAvailable,
        BalanceError::Overflow => OperationError::Overflow,
    }
}

/// A freshly planned lifecycle over exactly these records.
pub open spec fn starts_with(m: ProofLifecycle, operation: OperationKind, items: Seq<(ProofKind, Address)>) -> bool {
    &&& m.wf()
    &&& m@.contexts == planned(operation, items)
    &&& m@.phase == Phase::Creating
    &&& m@.created == 0
}

/// Plans a withdraw of `amount`: checks the amount against the decrypted
/// available balance before any record exists, then lays out the equality
/// and range records at the given fresh addresses.
pub fn plan_withdraw(balance: &ConfidentialBalance, amount: u64, equality: Address, range: Address) -> (r: Result<
    ProofLifecycle,
    OperationError,
>)
    ensures
        (amount > balance.available) <==> r == Err::<ProofLifecycle, OperationError>(
            OperationError::InsufficientAvailable,
        ),
        (amount <= balance.available && equality@ == range@) <==> r == Err::<ProofLifecycle, OperationError>(
            OperationError::DuplicateAddress,
        ),
        r is Ok <==> (amount <= balance.available && equality@ != range@),
        r is Ok ==> starts_with(r->Ok_0, OperationKind::Withdraw, withdraw_items(equality, range)),
{
    if !balance.can_debit(amount) {
        return Err(OperationError::InsufficientAvailable);
    }
    let items = vec![(ProofKind::Equality, equality), (ProofKind::Range, range)];
    assert(items@ =~= withdraw_items(equality, range));
    assert(fresh_addresses(items@) <==> equality@ != range@) by {
        if equality@ != range@ {
            assert forall|i: int, j: int| 0 <= i < j < items@.len() implies items@[i].1@ != items@[j].1@ by {
                assert(i == 0 && j == 1);
            }
        }
    }
    match ProofLifecycle::new(OperationKind::Withdraw, &items) {
        Ok(m) => Ok(m),
        Err(_) => Err(OperationError::DuplicateAddress),
    }
}

/// Plans a transfer of `amount` out of the sender's account: checks the
/// amount against the sender's decrypted available balance before any
/// record exists, then lays out the equality, ciphertext-validity and range
/// records at the given fresh addresses.
pub fn plan_transfer(
    sender: &ConfidentialBalance,
    amount: u64,
    equality: Address,
    validity: Address,
    range: Address,
) -> (r: Result<ProofLifecycle, OperationError>)
    ensures
        (amount > sender.available) <==> r == Err::<ProofLifecycle, OperationError>(
            OperationError::InsufficientAvailable,
        ),
        (amount <= sender.available && !fresh_addresses(transfer_items(equality, validity, range))) <==> r
            == Err::<ProofLifecycle, OperationError>(OperationError::DuplicateAddress),
        r is Ok <==> (amount <= sender.available && fresh_addresses(transfer_items(equality, validity, range))),
        r is Ok ==> starts_with(r->Ok_0, OperationKind::Transfer, transfer_items(equality, validity, range)),
{
    if !sender.can_debit(amount) {
        return Err(OperationError::InsufficientAvailable);
    }
    let items = vec![
        (ProofKind::Equality, equality),
        (ProofKind::CiphertextValidity, validity),
        (ProofKind::Range, range),
    ];
    assert(items@ =~= transfer_items(equality, validity, range));
    match ProofLifecycle::new(OperationKind::Transfer, &items) {
        Ok(m) => Ok(m),
        Err(_) => Err(OperationError::DuplicateAddress),
    }
}

/// The error that an unfinished or uncommitted lifecycle reports.
pub open spec fn uncommitted_error(o: Outcome) -> OperationError {
    match o {
        Outcome::CreationFailed => OperationError::ProofContextCreationFailed,
        Outcome::ConsumingFailed => OperationError::ConsumingInstructionFailed,
        _ => OperationError::NotFinished,
    }
}

fn uncommitted(o: Outcome) -> (r: OperationError)
    ensures
        r == uncommitted_error(o),
{
    match o {
        Outcome::CreationFailed => OperationError::ProofContextCreationFailed,
        Outcome::ConsumingFailed => OperationError::ConsumingInstructionFailed,
        _ => OperationError::NotFinished,
    }
}

/// Brings the local view of the balance up to date once a withdraw's
/// lifecycle is over: the debit happens only when the consuming instruction
/// confirmed. Records left to close, or leaked, do not undo it.
pub fn settle_withdraw(op: &ProofLifecycle, balance: &mut ConfidentialBalance, amount: u64) -> (r: Result<
    (),
    OperationError,
>)
    requires
        op.wf(),
        all_for(op@.contexts, OperationKind::Withdraw),
        kinds(op@.contexts) == seq![ProofKind::Equality, ProofKind::Range],
        old(balance).wf(),
    ensures
        final(balance).wf(),
        op@.outcome() != Outcome::Committed ==> r == Err::<(), OperationError>(uncommitted_error(op@.outcome()))
            && *final(balance) == *old(balance),
        op@.outcome() == Outcome::Committed ==> match debit_spec(*old(balance), amount) {
            Ok(next) => r == Ok::<(), OperationError>(()) && *final(balance) == next,
            Err(e) => r == Err::<(), OperationError>(balance_error(e)) && *final(balance) == *old(balance),
        },
{
    let o = op.outcome();
    if o != Outcome::Committed {
        return Err(uncommitted(o));
    }
    match balance.debit(amount) {
        Ok(()) => Ok(()),
        Err(e) => Err(from_balance_error(e)),
    }
}

/// Brings the local views of both balances up to date once a transfer's
/// lifecycle is over: the sender is debited and the recipient's pending
/// balance credited only when the consuming instruction confirmed.
pub fn settle_transfer(
    op: &ProofLifecycle,
    sender: &mut ConfidentialBalance,
    recipient: &mut ConfidentialBalance,
    amount: u64,
) -> (r: Result<(), OperationError>)
    requires
        op.wf(),
        all_for(op@.contexts, OperationKind::Transfer),
        kinds(op@.contexts) == seq![ProofKind::Equality, ProofKind::CiphertextValidity, ProofKind::Range],
        old(sender).wf(),
        old(recipient).wf(),
    ensures
        final(sender).wf(),
        final(recipient).wf(),
        op@.outcome() != Outcome::Committed ==> r == Err::<(), OperationError>(uncommitted_error(op@.outcome()))
            && *final(sender) == *old(sender) && *final(recipient) == *old(recipient),
        op@.outcome() == Outcome::Committed ==> match (
            debit_spec(*old(sender), amount),
            credit_spec(*old(recipient), amount),
        ) {
            (Ok(s), Ok(t)) => r == Ok::<(), OperationError>(()) && *final(sender) == s && *final(recipient) == t,
            (Err(e), _) => r == Err::<(), OperationError>(balance_error(e)) && *final(sender) == *old(sender)
                && *final(recipient) == *old(recipient),
            (Ok(_), Err(e)) => r == Err::<(), OperationError>(balance_error(e)) && *final(sender) == *old(
                sender,
            ) && *final(recipient) == *old(recipient),
        },
{
    let o = op.outcome();
    if o != Outcome::Committed {
        return Err(uncommitted(o));
    }
    match transfer(sender, recipient, amount) {
        Ok(()) => Ok(()),
        Err(e) => Err(from_balance_error(e)),
    }
}

} // verus!
