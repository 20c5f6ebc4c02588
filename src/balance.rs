use vstd::prelude::*;

verus! {

/// Why a balance change was refused before anything was submitted.
#[derive(Debug, Clone, Copy, PartialEq, Eq, Structural)]
pub enum BalanceError {
    /// One more pending credit would go past the account's configured maximum.
    PendingCapacityExceeded,
    /// The requested amount is larger than the decrypted available balance.
    InsufficientAvailable,
    /// The sum would not fit in 64 bits.
    Overflow,
}

/// The decrypted view of one confidential account: what its owner learns by
/// decrypting the on-ledger ciphertexts with the keys derived from the signer.
#[derive(Debug, Clone, Copy, PartialEq, Eq, Structural)]
pub struct ConfidentialBalance {
    /// Spendable amount.
    pub available: u64,
    /// Amount credited since the last apply, not yet spendable.
    pub pending: u64,
    /// Number of credits folded into `pending` since the last apply.
    pub pending_count: u64,
    /// How many credits the pending accumulator may absorb.
    pub max_pending: u64,
}

/// The state after crediting `amount` to the pending accumulator, or why not.
pub open spec fn credit_spec(b: ConfidentialBalance, amount: u64) -> Result<ConfidentialBalance, BalanceError> {
    if b.pending_count >= b.max_pending {
        Err(BalanceError::PendingCapacityExceeded)
    } else if b.pending + amount > u64::MAX {
        Err(BalanceError::Overflow)
    } else {
        Ok(ConfidentialBalance {
            pending: (b.pending + amount) as u64,
            pending_count: (b.pending_count + 1) as u64,
            ..b
        })
    }
}

/// The state after merging the pending accumulator into the available balance.
pub open spec fn apply_spec(b: ConfidentialBalance) -> Result<ConfidentialBalance, BalanceError> {
    if b.available + b.pending > u64::MAX {
        Err(BalanceError::Overflow)
    } else {
        Ok(ConfidentialBalance {
            available: (b.available + b.pending) as u64,
            pending: 0,
            pending_count: 0,
            ..b
        })
    }
}

/// The state after debiting `amount` from the available balance, or why not.
pub open spec fn debit_spec(b: ConfidentialBalance, amount: u64) -> Result<ConfidentialBalance, BalanceError> {
    if amount > b.available {
        Err(BalanceError::InsufficientAvailable)
    } else {
        Ok(ConfidentialBalance { available: (b.available - amount) as u64, ..b })
    }
}

impl ConfidentialBalance {
    /// The pending counter stays within its bound, and an empty accumulator
    /// holds nothing.
    pub open spec fn wf(&self) -> bool {
        &&& self.pending_count <= self.max_pending
        &&& self.pending_count == 0 ==> self.pending == 0
    }

    pub open spec fn new_spec(max_pending: u64) -> ConfidentialBalance {
        ConfidentialBalance { available: 0, pending: 0, pending_count: 0, max_pending }
    }

    /// A freshly configured account: nothing available, nothing pending.
    pub fn new(max_pending: u64) -> (r: ConfidentialBalance)
        ensures
            r.wf(),
            r == ConfidentialBalance::new_spec(max_pending),
    {
        ConfidentialBalance { available: 0, pending: 0, pending_count: 0, max_pending }
    }

    /// Whether one more credit fits in the pending accumulator.
    pub fn has_pending_capacity(&self) -> (r: bool)
        ensures
            r == (self.pending_count < self.max_pending),
    {
        self.pending_count < self.max_pending
    }

    /// Folds one incoming amount into the pending accumulator (a deposit, or
    /// the credit side of a transfer). On error nothing changes.
    pub fn credit(&mut self, amount: u64) -> (r: Result<(), BalanceError>)
        requires
            old(self).wf(),
        ensures
            final(self).wf(),
            match credit_spec(*old(self), amount) {
                Ok(next) => r == Ok::<(), BalanceError>(()) && *final(self) == next,
                Err(e) => r == Err::<(), BalanceError>(e) && *final(self) == *old(self),
            },
    {
        if self.pending_count >= self.max_pending {
            return Err(BalanceError::PendingCapacityExceeded);
        }
        match self.pending.checked_add(amount) {
            None => Err(BalanceError::Overflow),
            Some(p) => {
                self.pending = p;
                self.pending_count = self.pending_count + 1;
                Ok(())
            },
        }
    }

    /// A deposit of `amount` into the pending balance: the pending counter
    /// goes up by one, or the deposit is refused once the counter has reached
    /// its maximum.
    pub fn deposit(&mut self, amount: u64) -> (r: Result<(), BalanceError>)
        requires
            old(self).wf(),
        ensures
            final(self).wf(),
            match credit_spec(*old(self), amount) {
                Ok(next) => r == Ok::<(), BalanceError>(()) && *final(self) == next,
                Err(e) => r == Err::<(), BalanceError>(e) && *final(self) == *old(self),
            },
            r is Ok ==> final(self).pending_count == old(self).pending_count + 1,
            (r == Err::<(), BalanceError>(BalanceError::PendingCapacityExceeded)) <==> old(self).pending_count
                == old(self).max_pending,
    {
        self.credit(amount)
    }

    /// Merges the pending accumulator into the available balance and resets
    /// the pending counter. On error nothing changes.
    pub fn apply_pending(&mut self) -> (r: Result<(), BalanceError>)
        requires
            old(self).wf(),
        ensures
            final(self).wf(),
            match apply_spec(*old(self)) {
                Ok(next) => r == Ok::<(), BalanceError>(()) && *final(self) == next,
                Err(e) => r == Err::<(), BalanceError>(e) && *final(self) == *old(self),
            },
    {
        match self.available.checked_add(self.pending) {
            None => Err(BalanceError::Overflow),
            Some(a) => {
                self.available = a;
                self.pending = 0;
                self.pending_count = 0;
                Ok(())
            },
        }
    }

    /// Whether `amount` can be taken from the available balance.
    pub fn can_debit(&self, amount: u64) -> (r: bool)
        ensures
            r == (amount <= self.available),
    {
        amount <= self.available
    }

    /// Takes `amount` from the available balance (the commit of a withdraw, or
    /// the debit side of a transfer). On error nothing changes.
    pub fn debit(&mut self, amount: u64) -> (r: Result<(), BalanceError>)
        requires
            old(self).wf(),
        ensures
            final(self).wf(),
            match debit_spec(*old(self), amount) {
                Ok(next) => r == Ok::<(), BalanceError>(()) && *final(self) == next,
                Err(e) => r == Err::<(), BalanceError>(e) && *final(self) == *old(self),
            },
    {
        if amount > self.available {
            return Err(BalanceError::InsufficientAvailable);
        }
        self.available = self.available - amount;
        Ok(())
    }
}

/// Moves `amount` from the sender's available balance to the recipient's
/// pending balance, as a confirmed transfer does. Either both change or,
/// on error, neither does: the sender is checked first.
pub fn transfer(
    sender: &mut ConfidentialBalance,
    recipient: &mut ConfidentialBalance,
    amount: u64,
) -> (r: Result<(), BalanceError>)
    requires
        old(sender).wf(),
        old(recipient).wf(),
    ensures
        final(sender).wf(),
        final(recipient).wf(),
        match (debit_spec(*old(sender), amount), credit_spec(*old(recipient), amount)) {
            (Ok(s), Ok(t)) => r == Ok::<(), BalanceError>(()) && *final(sender) == s && *final(recipient) == t,
            (Err(e), _) => r == Err::<(), BalanceError>(e) && *final(sender) == *old(sender)
                && *final(recipient) == *old(recipient),
            (Ok(_), Err(e)) => r == Err::<(), BalanceError>(e) && *final(sender) == *old(sender)
                && *final(recipient) == *old(recipient),
        },
{
    if !sender.can_debit(amount) {
        return Err(BalanceError::InsufficientAvailable);
    }
    match recipient.credit(amount) {
        Err(e) => Err(e),
        Ok(()) => sender.debit(amount),
    }
}

} // verus!
