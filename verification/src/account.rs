use vstd::prelude::*;

verus! {

/// An actor identity on the hosting ledger. The authorization logic only ever
/// compares identities for equality, so the runtime's opaque account
/// addresses are represented by the integers it assigns them.
pub type AccountId = u64;

/// A quantity of the ledger's native currency.
pub type Balance = u128;

/// An outgoing value transfer that the hosting runtime is asked to perform:
/// move `value` out of the contract's custodied funds to `to`. The library
/// computes and returns these orders; performing them is the runtime's job.
#[derive(Clone, Copy, Debug, PartialEq, Eq, Structural)]
pub struct PendingTransfer {
    pub to: AccountId,
    pub value: Balance,
}

} // verus!
