use vstd::prelude::*;

use crate::account::{AccountId, Balance, PendingTransfer};

verus! {

/// Why a wallet operation was refused.
#[derive(Clone, Copy, Debug, PartialEq, Eq, Structural)]
pub enum Error {
    InvalidTransactionId,
    InvalidOwner,
    TransactionAlreadyConfirmed,
    TransactionNotConfirmed,
    TransactionAlreadyExecuted,
    InsufficientConfirmations,
    TransactionFailed,
}

/// Proposal ids count up from zero and are never reused.
pub type TransactionId = u32;

/// A value-transfer proposal as stored and as returned by queries.
#[derive(Clone, Copy, Debug, PartialEq, Eq, Structural)]
pub struct Transaction {
    pub to: AccountId,
    pub value: Balance,
    pub executed: bool,
    pub num_confirmations: u32,
}

/// Notification that an owner submitted a new proposal.
#[derive(Clone, Copy, Debug, PartialEq, Eq, Structural)]
pub struct SubmitTransaction {
    pub owner: AccountId,
    pub transaction_id: TransactionId,
    pub to: AccountId,
    pub value: Balance,
}

/// Notification that an owner confirmed a proposal.
#[derive(Clone, Copy, Debug, PartialEq, Eq, Structural)]
pub struct ConfirmTransaction {
    pub owner: AccountId,
    pub transaction_id: TransactionId,
}

/// Notification that an owner revoked a confirmation.
#[derive(Clone, Copy, Debug, PartialEq, Eq, Structural)]
pub struct RevokeConfirmation {
    pub owner: AccountId,
    pub transaction_id: TransactionId,
}

/// A notification owed to the external observability channel. The wallet
/// appends these to its log; the hosting runtime drains and delivers them,
/// and delivery failure is not a contract-level error.
#[derive(Clone, Copy, Debug, PartialEq, Eq, Structural)]
pub enum Event {
    Submitted(SubmitTransaction),
    Confirmed(ConfirmTransaction),
    Revoked(RevokeConfirmation),
}

/// The quorum-based transaction-authorization engine: a fixed, deduplicated
/// owner set, an immutable threshold, the proposals in submission order (the
/// proposal id is the index), and for each proposal the owners currently
/// confirming it.
pub struct MultiSigWallet {
    threshold: u32,
    owners: Vec<AccountId>,
    transactions: Vec<Transaction>,
    confirmers: Vec<Vec<AccountId>>,
    events: Vec<Event>,
}

/// The owner sequence with every repeated identity dropped, keeping first
/// occurrences in order.
pub open spec fn dedup_seq(s: Seq<AccountId>) -> Seq<AccountId>
    decreases s.len(),
{
    if s.len() == 0 {
        Seq::empty()
    } else {
        let rest = dedup_seq(s.drop_last());
        if rest.contains(s.last()) {
            rest
        } else {
            rest.push(s.last())
        }
    }
}

/// Deduplication yields pairwise-distinct identities, keeps exactly the
/// identities of the input, and never grows the sequence.
pub proof fn lemma_dedup_seq(s: Seq<AccountId>)
    ensures
        dedup_seq(s).no_duplicates(),
        forall|a: AccountId| #[trigger] dedup_seq(s).contains(a) <==> s.contains(a),
        dedup_seq(s).len() <= s.len(),
    decreases s.len(),
{
    broadcast use vstd::seq_lib::lemma_seq_contains_after_push;

    if s.len() == 0 {
        assert forall|a: AccountId| #[trigger] dedup_seq(s).contains(a) <==> s.contains(a) by {
            assert(!s.contains(a));
            assert(!dedup_seq(s).contains(a));
        }
    } else {
        let prefix = s.drop_last();
        lemma_dedup_seq(prefix);
        assert(s =~= prefix.push(s.last()));
        assert forall|a: AccountId| #[trigger] dedup_seq(s).contains(a) <==> s.contains(a) by {
            assert(s.contains(a) <==> prefix.contains(a) || a == s.last());
        }
    }
}

/// A set of pairwise-distinct identities drawn from `owners` that misses at
/// least one owner is strictly smaller than the owner set.
proof fn lemma_distinct_subset_missing_one(sub: Seq<AccountId>, sup: Seq<AccountId>, c: AccountId)
    requires
        sub.no_duplicates(),
        sup.no_duplicates(),
        forall|a: AccountId| #[trigger] sub.contains(a) ==> sup.contains(a),
        sup.contains(c),
        !sub.contains(c),
    ensures
        sub.len() < sup.len(),
{
    broadcast use vstd::seq_lib::seq_to_set_is_finite;
    broadcast use vstd::set::group_set_axioms;

    sub.unique_seq_to_set();
    sup.unique_seq_to_set();
    assert(sub.to_set().subset_of(sup.to_set().remove(c)));
    vstd::set_lib::lemma_len_subset(sub.to_set(), sup.to_set().remove(c));
    assert(sup.to_set().remove(c).len() == sup.to_set().len() - 1);
}

/// Index of the first occurrence of `a` in `list`, if any.
fn index_of_account(list: &Vec<AccountId>, a: AccountId) -> (r: Option<usize>)
    ensures
        match r {
            Some(i) => i < list@.len() && list@[i as int] == a && list@.contains(a),
            None => !list@.contains(a),
        },
{
    let mut i: usize = 0;
    while i < list.len()
        invariant
            i <= list@.len(),
            forall|k: int| 0 <= k < i ==> list@[k] != a,
        decreases list@.len() - i,
    {
        if list[i] == a {
            return Some(i);
        }
        i += 1;
    }
    None
}

/// A valid construction: a positive threshold no larger than the number of
/// distinct owners.
pub open spec fn spec_valid_config(owners: Seq<AccountId>, threshold: u32) -> bool {
    1 <= threshold && threshold <= dedup_seq(owners).len()
}

/// How a successful submission changes the wallet: one new pending proposal
/// with no confirmations, under the next id, and a submission notification;
/// nothing else moves.
pub open spec fn spec_submit_transition(
    pre: MultiSigWallet,
    post: MultiSigWallet,
    caller: AccountId,
    to: AccountId,
    value: Balance,
) -> bool {
    let id = pre.spec_tx_count() as TransactionId;
    &&& post.spec_owners() == pre.spec_owners()
    &&& post.spec_threshold() == pre.spec_threshold()
    &&& post.spec_tx_count() == pre.spec_tx_count() + 1
    &&& post.spec_tx(id) == (Transaction { to, value, executed: false, num_confirmations: 0 })
    &&& post.spec_confirmers(id) == Seq::<AccountId>::empty()
    &&& forall|j: TransactionId| pre.spec_has_tx(j) ==> #[trigger] post.spec_tx(j) == pre.spec_tx(j)
    &&& forall|j: TransactionId|
        pre.spec_has_tx(j) ==> #[trigger] post.spec_confirmers(j) == pre.spec_confirmers(j)
    &&& post.spec_events() == pre.spec_events().push(
        Event::Submitted(SubmitTransaction { owner: caller, transaction_id: id, to, value }),
    )
}

/// How a successful confirmation changes the wallet: the caller joins the
/// proposal's confirmation records, the count rises by exactly one, and a
/// confirmation notification is logged; nothing else moves.
pub open spec fn spec_confirm_transition(
    pre: MultiSigWallet,
    post: MultiSigWallet,
    caller: AccountId,
    id: TransactionId,
) -> bool {
    &&& pre.spec_has_tx(id)
    &&& post.spec_owners() == pre.spec_owners()
    &&& post.spec_threshold() == pre.spec_threshold()
    &&& post.spec_tx_count() == pre.spec_tx_count()
    &&& post.spec_tx(id).to == pre.spec_tx(id).to
    &&& post.spec_tx(id).value == pre.spec_tx(id).value
    &&& post.spec_tx(id).executed == pre.spec_tx(id).executed
    &&& post.spec_tx(id).num_confirmations == pre.spec_tx(id).num_confirmations + 1
    &&& post.spec_confirmers(id) == pre.spec_confirmers(id).push(caller)
    &&& forall|j: TransactionId|
        j != id && pre.spec_has_tx(j) ==> #[trigger] post.spec_tx(j) == pre.spec_tx(j)
    &&& forall|j: TransactionId|
        j != id && pre.spec_has_tx(j) ==> #[trigger] post.spec_confirmers(j) == pre.spec_confirmers(
            j,
        )
    &&& post.spec_events() == pre.spec_events().push(
        Event::Confirmed(ConfirmTransaction { owner: caller, transaction_id: id }),
    )
}

/// How a successful revocation changes the wallet: the caller leaves the
/// proposal's confirmation records, the count drops by exactly one, and a
/// revocation notification is logged; nothing else moves.
pub open spec fn spec_revoke_transition(
    pre: MultiSigWallet,
    post: MultiSigWallet,
    caller: AccountId,
    id: TransactionId,
) -> bool {
    &&& pre.spec_has_tx(id)
    &&& post.spec_owners() == pre.spec_owners()
    &&& post.spec_threshold() == pre.spec_threshold()
    &&& post.spec_tx_count() == pre.spec_tx_count()
    &&& post.spec_tx(id).to == pre.spec_tx(id).to
    &&& post.spec_tx(id).value == pre.spec_tx(id).value
    &&& post.spec_tx(id).executed == pre.spec_tx(id).executed
    &&& post.spec_tx(id).num_confirmations == pre.spec_tx(id).num_confirmations - 1
    &&& !post.spec_confirmers(id).contains(caller)
    &&& post.spec_confirmers(id).len() == pre.spec_confirmers(id).len() - 1
    &&& forall|a: AccountId|
        a != caller ==> ((#[trigger] post.spec_confirmers(id).contains(a)) <==> pre.spec_confirmers(
            id,
        ).contains(a))
    &&& forall|j: TransactionId|
        j != id && pre.spec_has_tx(j) ==> #[trigger] post.spec_tx(j) == pre.spec_tx(j)
    &&& forall|j: TransactionId|
        j != id && pre.spec_has_tx(j) ==> #[trigger] post.spec_confirmers(j) == pre.spec_confirmers(
            j,
        )
    &&& post.spec_events() == pre.spec_events().push(
        Event::Revoked(RevokeConfirmation { owner: caller, transaction_id: id }),
    )
}

/// How a successful execution changes the wallet: the proposal is marked
/// executed, its confirmation records are kept as an audit trail, and no
/// notification is logged; nothing else moves.
pub open spec fn spec_execute_transition(
    pre: MultiSigWallet,
    post: MultiSigWallet,
    caller: AccountId,
    id: TransactionId,
) -> bool {
    &&& pre.spec_has_tx(id)
    &&& post.spec_owners() == pre.spec_owners()
    &&& post.spec_threshold() == pre.spec_threshold()
    &&& post.spec_tx_count() == pre.spec_tx_count()
    &&& post.spec_tx(id).to == pre.spec_tx(id).to
    &&& post.spec_tx(id).value == pre.spec_tx(id).value
    &&& post.spec_tx(id).executed == true
    &&& post.spec_tx(id).num_confirmations == pre.spec_tx(id).num_confirmations
    &&& forall|j: TransactionId|
        j != id && pre.spec_has_tx(j) ==> #[trigger] post.spec_tx(j) == pre.spec_tx(j)
    &&& forall|j: TransactionId|
        pre.spec_has_tx(j) ==> #[trigger] post.spec_confirmers(j) == pre.spec_confirmers(j)
    &&& post.spec_events() == pre.spec_events()
}

impl MultiSigWallet {
    pub closed spec fn spec_threshold(self) -> u32 {
        self.threshold
    }

    pub closed spec fn spec_owners(self) -> Seq<AccountId> {
        self.owners@
    }

    pub open spec fn spec_is_owner(self, a: AccountId) -> bool {
        self.spec_owners().contains(a)
    }

    pub closed spec fn spec_tx_count(self) -> nat {
        self.transactions@.len()
    }

    pub open spec fn spec_has_tx(self, id: TransactionId) -> bool {
        (id as int) < self.spec_tx_count()
    }

    pub closed spec fn spec_tx(self, id: TransactionId) -> Transaction {
        self.transactions@[id as int]
    }

    pub closed spec fn spec_confirmers(self, id: TransactionId) -> Seq<AccountId> {
        self.confirmers@[id as int]@
    }

    /// An owner currently counts toward a proposal's confirmation count iff a
    /// confirmation record for (id, owner) exists.
    pub open spec fn spec_confirmed(self, id: TransactionId, a: AccountId) -> bool {
        self.spec_has_tx(id) && self.spec_confirmers(id).contains(a)
    }

    pub closed spec fn spec_events(self) -> Seq<Event> {
        self.events@
    }

    /// Internal consistency: distinct owners, a threshold the owner set can
    /// meet, one confirmation-record list per proposal, records only from
    /// owners and pairwise distinct, and every stored confirmation count equal
    /// to the number of records for its proposal.
    pub closed spec fn wf(self) -> bool {
        &&& self.owners@.no_duplicates()
        &&& self.owners@.len() <= u32::MAX
        &&& 1 <= self.threshold <= self.owners@.len()
        &&& self.confirmers@.len() == self.transactions@.len()
        &&& self.transactions@.len() <= u32::MAX
        &&& forall|i: int|
            0 <= i < self.transactions@.len() ==> (#[trigger] self.confirmers@[i])@.no_duplicates()
        &&& forall|i: int|
            0 <= i < self.transactions@.len() ==> (#[trigger] self.transactions@[i]).num_confirmations
                == self.confirmers@[i]@.len()
        &&& forall|i: int, k: int|
            0 <= i < self.transactions@.len() && 0 <= k < self.confirmers@[i]@.len()
                ==> self.owners@.contains(#[trigger] self.confirmers@[i]@[k])
    }

    /// The result submission owes: the fresh proposal id for an owner,
    /// `InvalidOwner` for anyone else.
    pub open spec fn spec_submit_result(self, caller: AccountId) -> Result<TransactionId, Error> {
        if !self.spec_is_owner(caller) {
            Err(Error::InvalidOwner)
        } else {
            Ok(self.spec_tx_count() as TransactionId)
        }
    }

    /// The result confirmation owes, with the checks in their fixed order:
    /// caller must be an owner, must not already confirm this id, the
    /// proposal must exist and must not be executed.
    pub open spec fn spec_confirm_result(self, caller: AccountId, id: TransactionId) -> Result<
        (),
        Error,
    > {
        if !self.spec_is_owner(caller) {
            Err(Error::InvalidOwner)
        } else if self.spec_confirmed(id, caller) {
            Err(Error::TransactionAlreadyConfirmed)
        } else if !self.spec_has_tx(id) {
            Err(Error::InvalidTransactionId)
        } else if self.spec_tx(id).executed {
            Err(Error::TransactionAlreadyExecuted)
        } else {
            Ok(())
        }
    }

    /// The result revocation owes: symmetric to confirmation, requiring an
    /// existing confirmation record by the caller.
    pub open spec fn spec_revoke_result(self, caller: AccountId, id: TransactionId) -> Result<
        (),
        Error,
    > {
        if !self.spec_is_owner(caller) {
            Err(Error::InvalidOwner)
        } else if !self.spec_confirmed(id, caller) {
            Err(Error::TransactionNotConfirmed)
        } else if !self.spec_has_tx(id) {
            Err(Error::InvalidTransactionId)
        } else if self.spec_tx(id).executed {
            Err(Error::TransactionAlreadyExecuted)
        } else {
            Ok(())
        }
    }

    /// The result execution owes: the transfer order once the quorum is
    /// reached, otherwise the first failing check's error.
    pub open spec fn spec_execute_result(self, caller: AccountId, id: TransactionId) -> Result<
        PendingTransfer,
        Error,
    > {
        if !self.spec_is_owner(caller) {
            Err(Error::InvalidOwner)
        } else if !self.spec_has_tx(id) {
            Err(Error::InvalidTransactionId)
        } else if self.spec_tx(id).executed {
            Err(Error::TransactionAlreadyExecuted)
        } else if self.spec_tx(id).num_confirmations < self.spec_threshold() {
            Err(Error::InsufficientConfirmations)
        } else {
            Ok(PendingTransfer { to: self.spec_tx(id).to, value: self.spec_tx(id).value })
        }
    }

    /// Builds a wallet around already-deduplicated owners.
    fn from_parts(owners: Vec<AccountId>, threshold: u32) -> (r: MultiSigWallet)
        requires
            owners@.no_duplicates(),
            owners@.len() <= u32::MAX,
            1 <= threshold <= owners@.len(),
        ensures
            r.wf(),
            r.spec_owners() == owners@,
            r.spec_threshold() == threshold,
            r.spec_tx_count() == 0,
            r.spec_events() == Seq::<Event>::empty(),
    {
        MultiSigWallet {
            threshold,
            owners,
            transactions: Vec::new(),
            confirmers: Vec::new(),
            events: Vec::new(),
        }
    }

    /// Construction: deduplicates the owners, then aborts (by precondition)
    /// unless `1 <= threshold <=` the deduplicated owner count. The wallet
    /// starts with no proposals, no confirmations and an empty event log.
    pub fn new(owners: Vec<AccountId>, threshold: u32) -> (r: MultiSigWallet)
        requires
            owners@.len() <= u32::MAX,
            spec_valid_config(owners@, threshold),
        ensures
            r.wf(),
            r.spec_owners() == dedup_seq(owners@),
            r.spec_threshold() == threshold,
            r.spec_tx_count() == 0,
            r.spec_events() == Seq::<Event>::empty(),
    {
        proof {
            lemma_dedup_seq(owners@);
        }
        let deduped = dedup_owners(&owners);
        Self::from_parts(deduped, threshold)
    }

    /// Checked construction: `Some` exactly when the configuration is valid,
    /// with the same result as `new`.
    pub fn try_new(owners: Vec<AccountId>, threshold: u32) -> (r: Option<MultiSigWallet>)
        requires
            owners@.len() <= u32::MAX,
        ensures
            r is Some <==> spec_valid_config(owners@, threshold),
            r matches Some(w) ==> {
                &&& w.wf()
                &&& w.spec_owners() == dedup_seq(owners@)
                &&& w.spec_threshold() == threshold
                &&& w.spec_tx_count() == 0
                &&& w.spec_events() == Seq::<Event>::empty()
            },
    {
        proof {
            lemma_dedup_seq(owners@);
        }
        let deduped = dedup_owners(&owners);
        if 1 <= threshold && (threshold as usize) <= deduped.len() {
            Some(Self::from_parts(deduped, threshold))
        } else {
            None
        }
    }

    /// Whether `a` belongs to the owner set.
    pub fn is_owner(&self, a: AccountId) -> (r: bool)
        ensures
            r == self.spec_is_owner(a),
    {
        index_of_account(&self.owners, a).is_some()
    }

    pub fn threshold(&self) -> (r: u32)
        ensures
            r == self.spec_threshold(),
    {
        self.threshold
    }

    /// The owner set, deduplicated, in first-submission order.
    pub fn owners(&self) -> (r: &Vec<AccountId>)
        ensures
            r@ == self.spec_owners(),
    {
        &self.owners
    }

    /// How many proposals have been submitted so far; also the id the next
    /// submission will receive.
    pub fn transaction_count(&self) -> (r: u32)
        requires
            self.wf(),
        ensures
            r == self.spec_tx_count(),
    {
        self.transactions.len() as u32
    }

    /// Whether a confirmation record for (id, a) currently exists.
    pub fn is_confirmed_by(&self, id: TransactionId, a: AccountId) -> (r: bool)
        requires
            self.wf(),
        ensures
            r == self.spec_confirmed(id, a),
    {
        let idu = id as usize;
        if idu < self.confirmers.len() {
            index_of_account(&self.confirmers[idu], a).is_some()
        } else {
            false
        }
    }

    /// The log of notifications owed to the runtime's event channel, oldest
    /// first.
    pub fn events(&self) -> (r: &Vec<Event>)
        ensures
            r@ == self.spec_events(),
    {
        &self.events
    }

    /// Submission: an owner allocates the next proposal id for a transfer of
    /// `value` to `to`; the proposal starts unexecuted and unconfirmed.
    pub fn submit_transaction(&mut self, caller: AccountId, to: AccountId, value: Balance) -> (r:
        Result<TransactionId, Error>)
        requires
            old(self).wf(),
            old(self).spec_tx_count() < u32::MAX,
        ensures
            final(self).wf(),
            r == old(self).spec_submit_result(caller),
            r is Err ==> *final(self) == *old(self),
            r is Ok ==> spec_submit_transition(*old(self), *final(self), caller, to, value),
    {
        if index_of_account(&self.owners, caller).is_none() {
            return Err(Error::InvalidOwner);
        }
        let transaction_id = self.transactions.len() as u32;
        self.transactions.push(
            Transaction { to, value, executed: false, num_confirmations: 0 },
        );
        self.confirmers.push(Vec::new());
        self.events.push(
            Event::Submitted(SubmitTransaction { owner: caller, transaction_id, to, value }),
        );
        Ok(transaction_id)
    }

    /// Confirmation: an owner adds its confirmation record to an existing,
    /// not-yet-executed proposal it has not already confirmed, raising the
    /// confirmation count by one.
    pub fn confirm_transaction(&mut self, caller: AccountId, transaction_id: TransactionId) -> (r:
        Result<(), Error>)
        requires
            old(self).wf(),
        ensures
            final(self).wf(),
            r == old(self).spec_confirm_result(caller, transaction_id),
            r is Err ==> *final(self) == *old(self),
            r is Ok ==> spec_confirm_transition(*old(self), *final(self), caller, transaction_id),
    {
        if index_of_account(&self.owners, caller).is_none() {
            return Err(Error::InvalidOwner);
        }
        let idu = transaction_id as usize;
        if idu < self.transactions.len() {
            if index_of_account(&self.confirmers[idu], caller).is_some() {
                return Err(Error::TransactionAlreadyConfirmed);
            }
        }
        if idu >= self.transactions.len() {
            return Err(Error::InvalidTransactionId);
        }
        if self.transactions[idu].executed {
            return Err(Error::TransactionAlreadyExecuted);
        }
        proof {
            lemma_distinct_subset_missing_one(
                old(self).spec_confirmers(transaction_id),
                old(self).spec_owners(),
                caller,
            );
        }
        let ghost pre = *self;
        let list = &mut self.confirmers[idu];
        list.push(caller);
        let tx = &mut self.transactions[idu];
        tx.num_confirmations = tx.num_confirmations + 1;
        self.events.push(
            Event::Confirmed(ConfirmTransaction { owner: caller, transaction_id }),
        );
        proof {
            broadcast use vstd::seq_lib::lemma_seq_contains_after_push;

            assert(self.confirmers@ == pre.confirmers@.update(
                idu as int,
                self.confirmers@[idu as int],
            ));
            assert(self.confirmers@[idu as int]@ == pre.confirmers@[idu as int]@.push(caller));
            assert(self.transactions@ == pre.transactions@.update(
                idu as int,
                self.transactions@[idu as int],
            ));
            assert(self.confirmers@[idu as int]@.no_duplicates());
        }
        Ok(())
    }

    /// Revocation: an owner deletes its confirmation record from an existing,
    /// not-yet-executed proposal, lowering the confirmation count by one.
    pub fn revoke_cofirmation(&mut self, caller: AccountId, transaction_id: TransactionId) -> (r:
        Result<(), Error>)
        requires
            old(self).wf(),
        ensures
            final(self).wf(),
            r == old(self).spec_revoke_result(caller, transaction_id),
            r is Err ==> *final(self) == *old(self),
            r is Ok ==> spec_revoke_transition(*old(self), *final(self), caller, transaction_id),
    {
        if index_of_account(&self.owners, caller).is_none() {
            return Err(Error::InvalidOwner);
        }
        let idu = transaction_id as usize;
        let found: Option<usize> = if idu < self.transactions.len() {
            index_of_account(&self.confirmers[idu], caller)
        } else {
            None
        };
        let k = match found {
            None => {
                return Err(Error::TransactionNotConfirmed);
            },
            Some(k) => k,
        };
        if self.transactions[idu].executed {
            return Err(Error::TransactionAlreadyExecuted);
        }
        let ghost pre = *self;
        let list = &mut self.confirmers[idu];
        list.remove(k);
        let tx = &mut self.transactions[idu];
        tx.num_confirmations = tx.num_confirmations - 1;
        self.events.push(
            Event::Revoked(RevokeConfirmation { owner: caller, transaction_id }),
        );
        proof {
            let pres = pre.confirmers@[idu as int]@;
            let posts = self.confirmers@[idu as int]@;
            assert(self.confirmers@ == pre.confirmers@.update(
                idu as int,
                self.confirmers@[idu as int],
            ));
            assert(posts == pres.remove(k as int));
            pres.remove_ensures(k as int);
            assert(self.transactions@ == pre.transactions@.update(
                idu as int,
                self.transactions@[idu as int],
            ));
            assert forall|k1: int, k2: int| 0 <= k1 < k2 < posts.len() implies posts[k1]
                != posts[k2] by {
                let j1 = if k1 < k as int {
                    k1
                } else {
                    k1 + 1
                };
                let j2 = if k2 < k as int {
                    k2
                } else {
                    k2 + 1
                };
                assert(posts[k1] == pres[j1] && posts[k2] == pres[j2]);
            }
            assert(posts.no_duplicates());
            assert forall|x: AccountId| #[trigger] posts.contains(x) implies pres.contains(x) && x
                != caller by {
                let i = choose|i: int| 0 <= i < posts.len() && posts[i] == x;
                let j = if i < k as int {
                    i
                } else {
                    i + 1
                };
                assert(0 <= j < pres.len() && pres[j] == x);
                assert(j != k as int);
                assert(pres[j] != pres[k as int]);
                assert(x != caller);
            }
            assert forall|x: AccountId| x != caller && pres.contains(x) implies posts.contains(
                x,
            ) by {
                let j = choose|j: int| 0 <= j < pres.len() && pres[j] == x;
                let i = if j < k as int {
                    j
                } else {
                    j - 1
                };
                assert(posts[i] == x);
            }
        }
        Ok(())
    }

    /// Execution: once an existing, unexecuted proposal has gathered at least
    /// `threshold` confirmations, any owner may trigger it. The proposal is
    /// irreversibly marked executed *before* the returned transfer order is
    /// handed to the runtime, so a failed transfer can never be retried into
    /// a double spend (see `complete_execution`).
    pub fn execute_transaction(&mut self, caller: AccountId, transaction_id: TransactionId) -> (r:
        Result<PendingTransfer, Error>)
        requires
            old(self).wf(),
        ensures
            final(self).wf(),
            r == old(self).spec_execute_result(caller, transaction_id),
            r is Err ==> *final(self) == *old(self),
            r is Ok ==> spec_execute_transition(*old(self), *final(self), caller, transaction_id),
    {
        if index_of_account(&self.owners, caller).is_none() {
            return Err(Error::InvalidOwner);
        }
        let idu = transaction_id as usize;
        if idu >= self.transactions.len() {
            return Err(Error::InvalidTransactionId);
        }
        if self.transactions[idu].executed {
            return Err(Error::TransactionAlreadyExecuted);
        }
        if self.transactions[idu].num_confirmations < self.threshold {
            return Err(Error::InsufficientConfirmations);
        }
        let ghost pre = *self;
        let to = self.transactions[idu].to;
        let value = self.transactions[idu].value;
        let tx = &mut self.transactions[idu];
        tx.executed = true;
        proof {
            assert(self.transactions@ == pre.transactions@.update(
                idu as int,
                self.transactions@[idu as int],
            ));
        }
        Ok(PendingTransfer { to, value })
    }

    /// The last step of an execution: the runtime reports whether the value
    /// transfer it performed succeeded. By this point the proposal is already
    /// marked executed and stays so either way — a failed transfer surfaces
    /// `TransactionFailed` and requires manual remediation, never a retry.
    pub fn complete_execution(transfer_succeeded: bool) -> (r: Result<(), Error>)
        ensures
            r == (if transfer_succeeded {
                Ok::<(), Error>(())
            } else {
                Err::<(), Error>(Error::TransactionFailed)
            }),
    {
        if transfer_succeeded {
            Ok(())
        } else {
            Err(Error::TransactionFailed)
        }
    }

    /// Read path: the stored proposal under `transaction_id`, or
    /// `InvalidTransactionId` if no such proposal exists. No side effects and
    /// no caller restriction.
    pub fn get_transaction(&self, transaction_id: TransactionId) -> (r: Result<Transaction, Error>)
        ensures
            r == (if self.spec_has_tx(transaction_id) {
                Ok::<Transaction, Error>(self.spec_tx(transaction_id))
            } else {
                Err::<Transaction, Error>(Error::InvalidTransactionId)
            }),
    {
        let idu = transaction_id as usize;
        if idu < self.transactions.len() {
            Ok(self.transactions[idu])
        } else {
            Err(Error::InvalidTransactionId)
        }
    }
}

/// Removes repeated identities, keeping first occurrences in order.
fn dedup_owners(owners: &Vec<AccountId>) -> (r: Vec<AccountId>)
    ensures
        r@ == dedup_seq(owners@),
{
    let mut r: Vec<AccountId> = Vec::new();
    let mut i: usize = 0;
    while i < owners.len()
        invariant
            i <= owners@.len(),
            r@ == dedup_seq(owners@.subrange(0, i as int)),
        decreases owners@.len() - i,
    {
        let ghost prefix = owners@.subrange(0, i as int);
        let ghost next = owners@.subrange(0, i as int + 1);
        proof {
            assert(next.drop_last() =~= prefix);
            assert(next.last() == owners@[i as int]);
        }
        if index_of_account(&r, owners[i]).is_none() {
            r.push(owners[i]);
        }
        i += 1;
    }
    proof {
        assert(owners@.subrange(0, owners@.len() as int) =~= owners@);
    }
    r
}

/// For every proposal, the stored confirmation count equals the number of
/// existing confirmation records referencing it.
pub proof fn lemma_confirmation_count_matches_records(w: MultiSigWallet, id: TransactionId)
    requires
        w.wf(),
        w.spec_has_tx(id),
    ensures
        w.spec_confirmers(id).no_duplicates(),
        w.spec_tx(id).num_confirmations == w.spec_confirmers(id).to_set().len(),
{
    w.spec_confirmers(id).unique_seq_to_set();
}

/// No proposal can be executed twice: after one execution has succeeded,
/// every further execute call on the same id fails — with
/// `TransactionAlreadyExecuted` for an owner, `InvalidOwner` otherwise.
pub proof fn lemma_no_double_execute(
    pre: MultiSigWallet,
    post: MultiSigWallet,
    caller1: AccountId,
    caller2: AccountId,
    id: TransactionId,
)
    requires
        pre.wf(),
        pre.spec_execute_result(caller1, id) is Ok,
        spec_execute_transition(pre, post, caller1, id),
    ensures
        !(post.spec_execute_result(caller2, id) is Ok),
        post.spec_is_owner(caller2) ==> post.spec_execute_result(caller2, id) == Err::<
            PendingTransfer,
            Error,
        >(Error::TransactionAlreadyExecuted),
        !post.spec_is_owner(caller2) ==> post.spec_execute_result(caller2, id) == Err::<
            PendingTransfer,
            Error,
        >(Error::InvalidOwner),
{
}

/// Confirm, then revoke, then confirm again by the same owner on the same
/// unexecuted proposal leaves the confirmation count exactly one above where
/// it started — the revocation is fully undone, never double-counted — and
/// every other owner's confirmation record is untouched. The intermediate
/// revocation and re-confirmation are legal whenever the first confirmation
/// was.
pub proof fn lemma_confirm_revoke_confirm(
    w0: MultiSigWallet,
    w1: MultiSigWallet,
    w2: MultiSigWallet,
    w3: MultiSigWallet,
    caller: AccountId,
    id: TransactionId,
)
    requires
        w0.wf(),
        w0.spec_confirm_result(caller, id) is Ok,
        spec_confirm_transition(w0, w1, caller, id),
        spec_revoke_transition(w1, w2, caller, id),
        spec_confirm_transition(w2, w3, caller, id),
    ensures
        w1.spec_revoke_result(caller, id) is Ok,
        w2.spec_confirm_result(caller, id) is Ok,
        w3.spec_tx(id).num_confirmations == w0.spec_tx(id).num_confirmations + 1,
        w3.spec_confirmed(id, caller),
        forall|a: AccountId|
            a != caller ==> (#[trigger] w3.spec_confirmed(id, a) <==> w0.spec_confirmed(id, a)),
{
    broadcast use vstd::seq_lib::lemma_seq_contains_after_push;

    assert(w1.spec_confirmers(id).contains(caller));
    assert forall|a: AccountId| a != caller implies (#[trigger] w3.spec_confirmed(id, a) <==> w0.spec_confirmed(
        id,
        a,
    )) by {
        assert(w3.spec_confirmers(id).contains(a) <==> w2.spec_confirmers(id).contains(a));
        assert(w2.spec_confirmers(id).contains(a) <==> w1.spec_confirmers(id).contains(a));
        assert(w1.spec_confirmers(id).contains(a) <==> w0.spec_confirmers(id).contains(a));
    }
}

/// Execution succeeds exactly when the confirmation count has reached the
/// threshold at call time; in particular, one confirmation short of the
/// threshold always fails with `InsufficientConfirmations`.
pub proof fn lemma_execute_iff_threshold(w: MultiSigWallet, caller: AccountId, id: TransactionId)
    requires
        w.wf(),
        w.spec_is_owner(caller),
        w.spec_has_tx(id),
        !w.spec_tx(id).executed,
    ensures
        w.spec_execute_result(caller, id) is Ok <==> w.spec_tx(id).num_confirmations
            >= w.spec_threshold(),
        w.spec_tx(id).num_confirmations + 1 == w.spec_threshold() ==> w.spec_execute_result(
            caller,
            id,
        ) == Err::<PendingTransfer, Error>(Error::InsufficientConfirmations),
{
}

/// A caller outside the owner set is rejected with `InvalidOwner` by every
/// state-changing operation. (That the state is left unchanged on any error
/// is part of each operation's own contract.)
pub proof fn lemma_non_owner_rejected(w: MultiSigWallet, caller: AccountId, id: TransactionId)
    requires
        !w.spec_is_owner(caller),
    ensures
        w.spec_submit_result(caller) == Err::<TransactionId, Error>(Error::InvalidOwner),
        w.spec_confirm_result(caller, id) == Err::<(), Error>(Error::InvalidOwner),
        w.spec_revoke_result(caller, id) == Err::<(), Error>(Error::InvalidOwner),
        w.spec_execute_result(caller, id) == Err::<PendingTransfer, Error>(Error::InvalidOwner),
{
}

} // verus!
