use vstd::prelude::*;

use crate::account::{AccountId, Balance};
use crate::ledger::BalanceLedger;

verus! {

/// Why a token operation was refused.
#[derive(Clone, Copy, Debug, PartialEq, Eq, Structural)]
pub enum Psp22Error {
    CapExceeded,
    ZeroCap,
}

impl Psp22Error {
    /// The human-readable message carried by the refusal.
    pub fn message(&self) -> (r: String)
        ensures
            *self == Psp22Error::CapExceeded ==> r@ == "Cap exceeded"@,
            *self == Psp22Error::ZeroCap ==> r@ == "Cap must be above 0"@,
    {
        match self {
            Psp22Error::CapExceeded => String::from_str("Cap exceeded"),
            Psp22Error::ZeroCap => String::from_str("Cap must be above 0"),
        }
    }
}

/// A capped fungible token: minting is refused once it would push the total
/// supply past the cap fixed at construction.
pub struct MyPSP22 {
    cap: Balance,
    total_supply: Balance,
    balances: BalanceLedger,
    name: Option<String>,
    symbol: Option<String>,
    decimals: u8,
}

impl MyPSP22 {
    pub closed spec fn spec_cap(self) -> Balance {
        self.cap
    }

    pub closed spec fn spec_total_supply(self) -> Balance {
        self.total_supply
    }

    pub closed spec fn spec_balances(self) -> BalanceLedger {
        self.balances
    }

    /// The holding recorded for `a` (zero when `a` holds nothing).
    pub open spec fn spec_balance_of(self, a: AccountId) -> Balance {
        if self.spec_balances().spec_has(a) {
            self.spec_balances().spec_get(a)
        } else {
            0
        }
    }

    pub closed spec fn spec_decimals(self) -> u8 {
        self.decimals
    }

    /// The cap is positive, the supply never exceeds it, and no single
    /// holding exceeds the supply.
    pub open spec fn wf(self) -> bool {
        &&& self.spec_balances().wf()
        &&& 1 <= self.spec_cap()
        &&& self.spec_total_supply() <= self.spec_cap()
        &&& forall|a: AccountId| #[trigger] self.spec_balance_of(a) <= self.spec_total_supply()
    }

    /// Construction mints `initial_supply` to the caller under a positive
    /// cap; a zero cap or an initial supply above the cap aborts construction
    /// (by precondition).
    pub fn new(
        caller: AccountId,
        initial_supply: Balance,
        cap: Balance,
        name: Option<String>,
        symbol: Option<String>,
        decimal: u8,
    ) -> (r: MyPSP22)
        requires
            1 <= cap,
            initial_supply <= cap,
        ensures
            r.wf(),
            r.spec_cap() == cap,
            r.spec_total_supply() == initial_supply,
            r.spec_balance_of(caller) == initial_supply,
            forall|a: AccountId| a != caller ==> #[trigger] r.spec_balance_of(a) == 0,
            r.spec_decimals() == decimal,
    {
        let mut balances = BalanceLedger::new();
        balances.credit(caller, initial_supply);
        MyPSP22 { cap, total_supply: initial_supply, balances, name, symbol, decimals: decimal }
    }

    /// Checked construction: refuses a zero cap, then an initial supply above
    /// the cap, in that order; otherwise builds the token as `new` does.
    pub fn try_new(
        caller: AccountId,
        initial_supply: Balance,
        cap: Balance,
        name: Option<String>,
        symbol: Option<String>,
        decimal: u8,
    ) -> (r: Result<MyPSP22, Psp22Error>)
        ensures
            cap == 0 ==> r == Err::<MyPSP22, Psp22Error>(Psp22Error::ZeroCap),
            1 <= cap && initial_supply > cap ==> r == Err::<MyPSP22, Psp22Error>(
                Psp22Error::CapExceeded,
            ),
            r is Ok <==> (1 <= cap && initial_supply <= cap),
            r matches Ok(t) ==> {
                &&& t.wf()
                &&& t.spec_cap() == cap
                &&& t.spec_total_supply() == initial_supply
                &&& t.spec_balance_of(caller) == initial_supply
                &&& forall|a: AccountId| a != caller ==> #[trigger] t.spec_balance_of(a) == 0
                &&& t.spec_decimals() == decimal
            },
    {
        if cap == 0 {
            Err(Psp22Error::ZeroCap)
        } else if initial_supply > cap {
            Err(Psp22Error::CapExceeded)
        } else {
            Ok(Self::new(caller, initial_supply, cap, name, symbol, decimal))
        }
    }

    /// Mints `amount` new tokens to `account`, unless that would push the
    /// total supply past the cap, in which case nothing changes and the call
    /// fails with `CapExceeded`.
    pub fn mint(&mut self, account: AccountId, amount: Balance) -> (r: Result<(), Psp22Error>)
        requires
            old(self).wf(),
        ensures
            final(self).wf(),
            r == (if old(self).spec_total_supply() + amount > old(self).spec_cap() {
                Err::<(), Psp22Error>(Psp22Error::CapExceeded)
            } else {
                Ok::<(), Psp22Error>(())
            }),
            r is Err ==> *final(self) == *old(self),
            r is Ok ==> {
                &&& final(self).spec_total_supply() == old(self).spec_total_supply() + amount
                &&& final(self).spec_balance_of(account) == old(self).spec_balance_of(account)
                    + amount
                &&& forall|a: AccountId|
                    a != account ==> #[trigger] final(self).spec_balance_of(a) == old(
                        self,
                    ).spec_balance_of(a)
                &&& final(self).spec_cap() == old(self).spec_cap()
            },
    {
        if amount > self.cap - self.total_supply {
            return Err(Psp22Error::CapExceeded);
        }
        proof {
            assert(old(self).spec_balance_of(account) <= old(self).spec_total_supply());
        }
        self.total_supply = self.total_supply + amount;
        self.balances.credit(account, amount);
        proof {
            assert forall|a: AccountId| #[trigger] self.spec_balance_of(a)
                <= self.spec_total_supply() by {
                if a != account {
                    assert(self.spec_balance_of(a) == old(self).spec_balance_of(a));
                    assert(old(self).spec_balance_of(a) <= old(self).spec_total_supply());
                }
            }
        }
        Ok(())
    }

    /// The cap fixed at construction.
    pub fn cap(&self) -> (r: Balance)
        ensures
            r == self.spec_cap(),
    {
        self.cap
    }

    pub fn total_supply(&self) -> (r: Balance)
        ensures
            r == self.spec_total_supply(),
    {
        self.total_supply
    }

    pub fn balance_of(&self, a: AccountId) -> (r: Balance)
        requires
            self.wf(),
        ensures
            r == self.spec_balance_of(a),
    {
        match self.balances.get(a) {
            Some(v) => v,
            None => 0,
        }
    }

    pub fn decimals(&self) -> (r: u8)
        ensures
            r == self.spec_decimals(),
    {
        self.decimals
    }
}

} // verus!
