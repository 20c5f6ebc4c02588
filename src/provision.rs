use vstd::prelude::*;
use crate::balance::ConfidentialBalance;

verus! {

/// How many pending credits a newly configured account may absorb before
/// its pending balance must be applied.
pub const MAX_PENDING_BALANCE_CREDITS: u64 = 65536;

/// Why provisioning did not yield a fresh account.
#[derive(Debug, Clone, Copy, PartialEq, Eq, Structural)]
pub enum ProvisionError {
    /// The account exists already; the caller may go on with it once its
    /// confidential state is what was asked for.
    AlreadyProvisioned,
    /// The ledger refused the create / reallocate / configure transaction;
    /// being atomic, it left nothing behind.
    ProvisioningFailed,
    /// The existing account's confidential state is not what was asked for.
    UnexpectedState,
}

/// The local view of an account after the provisioning transaction was
/// submitted: a fresh, empty account when it confirmed.
pub fn provisioned(confirmed: bool, max_pending: u64) -> (r: Result<ConfidentialBalance, ProvisionError>)
    ensures
        confirmed <==> r is Ok,
        !confirmed ==> r == Err::<ConfidentialBalance, ProvisionError>(ProvisionError::ProvisioningFailed),
        r is Ok ==> r->Ok_0 == ConfidentialBalance::new_spec(max_pending),
{
    if confirmed {
        Ok(ConfidentialBalance::new(max_pending))
    } else {
        Err(ProvisionError::ProvisioningFailed)
    }
}

/// Whether the provisioning transaction should be submitted at all: not
/// for an account that exists already.
pub fn check_not_provisioned(exists: bool) -> (r: Result<(), ProvisionError>)
    ensures
        exists <==> r == Err::<(), ProvisionError>(ProvisionError::AlreadyProvisioned),
        !exists <==> r is Ok,
{
    if exists {
        Err(ProvisionError::AlreadyProvisioned)
    } else {
        Ok(())
    }
}

/// Takes over an account that was provisioned before, once its decrypted
/// state is consistent and configured with the expected capacity.
pub fn adopt_existing(state: ConfidentialBalance, max_pending: u64) -> (r: Result<ConfidentialBalance, ProvisionError>)
    ensures
        (state.wf() && state.max_pending == max_pending) <==> r == Ok::<ConfidentialBalance, ProvisionError>(
            state,
        ),
        !(state.wf() && state.max_pending == max_pending) ==> r == Err::<ConfidentialBalance, ProvisionError>(
            ProvisionError::UnexpectedState,
        ),
{
    if state.max_pending == max_pending && state.pending_count <= state.max_pending && (state.pending_count != 0
        || state.pending == 0) {
        Ok(state)
    } else {
        Err(ProvisionError::UnexpectedState)
    }
}

} // verus!
