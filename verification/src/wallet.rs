use vstd::prelude::*;

use crate::account::{AccountId, Balance, PendingTransfer};

verus! {

/// A single-owner wallet: it accepts incoming payments from anyone and pays
/// out only to its owner. The custodied balance is tracked here; moving the
/// actual funds is the runtime's job.
pub struct Wallet {
    owner: AccountId,
    balance: Balance,
}

impl Wallet {
    pub closed spec fn spec_owner(self) -> AccountId {
        self.owner
    }

    pub closed spec fn spec_balance(self) -> Balance {
        self.balance
    }

    pub fn new(owner: AccountId) -> (r: Wallet)
        ensures
            r.spec_owner() == owner,
            r.spec_balance() == 0,
    {
        Wallet { owner, balance: 0 }
    }

    pub fn get_owner(&self) -> (r: AccountId)
        ensures
            r == self.spec_owner(),
    {
        self.owner
    }

    /// Accepts an incoming payment of `amount`; any caller may pay in.
    pub fn receive(&mut self, amount: Balance)
        requires
            old(self).spec_balance() + amount <= Balance::MAX,
        ensures
            final(self).spec_owner() == old(self).spec_owner(),
            final(self).spec_balance() == old(self).spec_balance() + amount,
    {
        self.balance = self.balance + amount;
    }

    /// Pays `amount` out to the owner. Only the owner may withdraw, and only
    /// up to the custodied balance; the returned order tells the runtime to
    /// move the funds.
    pub fn withdraw(&mut self, caller: AccountId, amount: Balance) -> (r: PendingTransfer)
        requires
            caller == old(self).spec_owner(),
            amount <= old(self).spec_balance(),
        ensures
            final(self).spec_owner() == old(self).spec_owner(),
            final(self).spec_balance() == old(self).spec_balance() - amount,
            r == (PendingTransfer { to: caller, value: amount }),
    {
        self.balance = self.balance - amount;
        PendingTransfer { to: caller, value: amount }
    }

    pub fn get_balance(&self) -> (r: Balance)
        ensures
            r == self.spec_balance(),
    {
        self.balance
    }
}

} // verus!
