use vstd::prelude::*;

use crate::account::{AccountId, Balance};
use crate::ledger::BalanceLedger;

verus! {

/// The identity placeholder recorded while no bid has been placed yet.
pub const BLACKHOLE_ACCOUNT_ID: AccountId = 0;

/// How long an auction runs once started.
pub const AUCTION_DURATION: u64 = 600;

/// Why an auction operation was refused.
#[derive(Clone, Copy, Debug, PartialEq, Eq, Structural)]
pub enum Error {
    InvalidSeller,
    InvalidBidder,
    AlreadyStarted,
    NotStarted,
    AlreadyEnded,
    NotEnded,
    PSP34TransferFailed,
    InsufficientBid,
    NoWithdrawableBalance,
    TransferFailed,
}

/// Notification of a new highest bid.
#[derive(Clone, Copy, Debug, PartialEq, Eq, Structural)]
pub struct Bid {
    pub bidder: AccountId,
    pub amount: Balance,
}

/// Notification that the auction has ended.
#[derive(Clone, Copy, Debug, PartialEq, Eq, Structural)]
pub struct End {
    pub highest_bidder: AccountId,
    pub highest_bid: Balance,
}

/// A notification owed to the external observability channel.
#[derive(Clone, Copy, Debug, PartialEq, Eq, Structural)]
pub enum AuctionEvent {
    BidPlaced(Bid),
    Ended(End),
}

/// An English auction of one token: monotonic highest-bid tracking with
/// deferred-withdrawal refunds for outbid bidders. The token-holding contract
/// and the native ledger are external collaborators; their calls' outcomes
/// enter each operation as explicit arguments.
pub struct EnglishAuction {
    psp34_contract: AccountId,
    token_id: u32,
    seller: AccountId,
    started: bool,
    end_at: u64,
    ended: bool,
    highest_bidder: AccountId,
    highest_bid: Balance,
    bids: BalanceLedger,
    events: Vec<AuctionEvent>,
}

impl EnglishAuction {
    pub closed spec fn spec_token_contract(self) -> AccountId {
        self.psp34_contract
    }

    pub closed spec fn spec_token_id(self) -> u32 {
        self.token_id
    }

    pub closed spec fn spec_seller(self) -> AccountId {
        self.seller
    }

    pub closed spec fn spec_started(self) -> bool {
        self.started
    }

    pub closed spec fn spec_end_at(self) -> u64 {
        self.end_at
    }

    pub closed spec fn spec_ended(self) -> bool {
        self.ended
    }

    pub closed spec fn spec_highest_bidder(self) -> AccountId {
        self.highest_bidder
    }

    pub closed spec fn spec_highest_bid(self) -> Balance {
        self.highest_bid
    }

    pub closed spec fn spec_bids(self) -> BalanceLedger {
        self.bids
    }

    pub closed spec fn spec_events(self) -> Seq<AuctionEvent> {
        self.events@
    }

    /// The amount `a` could withdraw right now, if any.
    pub open spec fn spec_withdrawable(self, a: AccountId) -> Option<Balance> {
        if self.spec_bids().spec_has(a) {
            Some(self.spec_bids().spec_get(a))
        } else {
            None
        }
    }

    pub open spec fn wf(self) -> bool {
        self.spec_bids().wf()
    }

    /// Where the token goes when the auction ends.
    pub open spec fn spec_token_recipient(self) -> AccountId {
        if self.spec_highest_bidder() != BLACKHOLE_ACCOUNT_ID {
            self.spec_seller()
        } else {
            self.spec_highest_bidder()
        }
    }

    /// The result `start` owes, given whether the token deposit into the
    /// auction's custody succeeded.
    pub open spec fn spec_start_result(self, caller: AccountId, deposit_ok: bool) -> Result<
        (),
        Error,
    > {
        if caller != self.spec_seller() {
            Err(Error::InvalidSeller)
        } else if self.spec_started() {
            Err(Error::AlreadyStarted)
        } else if !deposit_ok {
            Err(Error::PSP34TransferFailed)
        } else {
            Ok(())
        }
    }

    /// The result `bid` owes: only a payment strictly above the current
    /// highest bid, while the auction is running, is accepted.
    pub open spec fn spec_bid_result(self, caller: AccountId, now: u64, amount: Balance) -> Result<
        (),
        Error,
    > {
        if caller == self.spec_seller() {
            Err(Error::InvalidBidder)
        } else if !self.spec_started() {
            Err(Error::NotStarted)
        } else if self.spec_ended() || self.spec_end_at() <= now {
            Err(Error::AlreadyEnded)
        } else if amount <= self.spec_highest_bid() {
            Err(Error::InsufficientBid)
        } else {
            Ok(())
        }
    }

    /// Whether `end`'s own checks pass (before the token payout is attempted).
    pub open spec fn spec_end_allowed(self, caller: AccountId, now: u64) -> bool {
        caller == self.spec_seller() && self.spec_started() && !self.spec_ended() && now
            >= self.spec_end_at()
    }

    /// The result `end` owes, given whether the token payout succeeded.
    pub open spec fn spec_end_result(self, caller: AccountId, now: u64, payout_ok: bool) -> Result<
        (),
        Error,
    > {
        if caller != self.spec_seller() {
            Err(Error::InvalidSeller)
        } else if !self.spec_started() {
            Err(Error::NotStarted)
        } else if self.spec_ended() {
            Err(Error::AlreadyEnded)
        } else if now < self.spec_end_at() {
            Err(Error::NotEnded)
        } else if !payout_ok {
            Err(Error::PSP34TransferFailed)
        } else {
            Ok(())
        }
    }

    /// The result `withdraw` owes, given whether the refund transfer
    /// succeeded.
    pub open spec fn spec_withdraw_result(self, caller: AccountId, transfer_ok: bool) -> Result<
        (),
        Error,
    > {
        if !self.spec_bids().spec_has(caller) {
            Err(Error::NoWithdrawableBalance)
        } else if !transfer_ok {
            Err(Error::TransferFailed)
        } else {
            Ok(())
        }
    }

    /// The caller becomes the seller of `token_id`, held by the token
    /// contract `contract`; nothing has started and nothing is escrowed.
    pub fn new(caller: AccountId, contract: AccountId, token_id: u32) -> (r: EnglishAuction)
        ensures
            r.wf(),
            r.spec_token_contract() == contract,
            r.spec_token_id() == token_id,
            r.spec_seller() == caller,
            !r.spec_started(),
            !r.spec_ended(),
            r.spec_end_at() == 0,
            r.spec_highest_bid() == 0,
            r.spec_highest_bidder() == BLACKHOLE_ACCOUNT_ID,
            forall|a: AccountId| r.spec_withdrawable(a) == None::<Balance>,
            r.spec_events() == Seq::<AuctionEvent>::empty(),
    {
        EnglishAuction {
            psp34_contract: contract,
            token_id,
            seller: caller,
            started: false,
            end_at: 0,
            ended: false,
            highest_bidder: BLACKHOLE_ACCOUNT_ID,
            highest_bid: 0,
            bids: BalanceLedger::new(),
            events: Vec::new(),
        }
    }

    /// The seller opens the auction. The runtime first deposits the token
    /// into the auction's custody and reports the outcome as `deposit_ok`;
    /// only a successful deposit starts the clock, which runs until
    /// `now + AUCTION_DURATION`.
    pub fn start(&mut self, caller: AccountId, now: u64, deposit_ok: bool) -> (r: Result<
        (),
        Error,
    >)
        requires
            old(self).wf(),
            now + AUCTION_DURATION <= u64::MAX,
        ensures
            final(self).wf(),
            r == old(self).spec_start_result(caller, deposit_ok),
            r is Err ==> *final(self) == *old(self),
            r is Ok ==> {
                &&& final(self).spec_started()
                &&& final(self).spec_end_at() == now + AUCTION_DURATION
                &&& final(self).spec_token_contract() == old(self).spec_token_contract()
                &&& final(self).spec_token_id() == old(self).spec_token_id()
                &&& final(self).spec_seller() == old(self).spec_seller()
                &&& final(self).spec_ended() == old(self).spec_ended()
                &&& final(self).spec_highest_bid() == old(self).spec_highest_bid()
                &&& final(self).spec_highest_bidder() == old(self).spec_highest_bidder()
                &&& final(self).spec_bids() == old(self).spec_bids()
                &&& final(self).spec_events() == old(self).spec_events()
            },
    {
        if caller != self.seller {
            return Err(Error::InvalidSeller);
        }
        if self.started {
            return Err(Error::AlreadyStarted);
        }
        if !deposit_ok {
            return Err(Error::PSP34TransferFailed);
        }
        self.started = true;
        self.end_at = now + AUCTION_DURATION;
        Ok(())
    }

    /// A non-seller bids `amount` (the payment that came with the call) at
    /// time `now`. The previous highest bid, if any, is reserved for the
    /// outbid bidder's later withdrawal.
    pub fn bid(&mut self, caller: AccountId, now: u64, amount: Balance) -> (r: Result<(), Error>)
        requires
            old(self).wf(),
            old(self).spec_bids().spec_has(old(self).spec_highest_bidder()) ==> old(
                self,
            ).spec_bids().spec_get(old(self).spec_highest_bidder()) + old(self).spec_highest_bid()
                <= Balance::MAX,
        ensures
            final(self).wf(),
            r == old(self).spec_bid_result(caller, now, amount),
            r is Err ==> *final(self) == *old(self),
            r is Ok ==> spec_bid_transition(*old(self), *final(self), caller, amount),
    {
        if caller == self.seller {
            return Err(Error::InvalidBidder);
        }
        if !self.started {
            return Err(Error::NotStarted);
        }
        if self.ended || self.end_at <= now {
            return Err(Error::AlreadyEnded);
        }
        if amount <= self.highest_bid {
            return Err(Error::InsufficientBid);
        }
        if self.highest_bidder != BLACKHOLE_ACCOUNT_ID {
            let prev = self.highest_bidder;
            let reserved = self.highest_bid;
            self.bids.credit(prev, reserved);
        }
        self.highest_bid = amount;
        self.highest_bidder = caller;
        self.events.push(AuctionEvent::BidPlaced(Bid { bidder: caller, amount }));
        Ok(())
    }

    /// The seller closes the auction once its end time has passed. The close
    /// is committed before the token payout is attempted: if the runtime
    /// reports the payout failed, the auction still counts as ended and the
    /// call surfaces `PSP34TransferFailed`.
    pub fn end(&mut self, caller: AccountId, now: u64, payout_ok: bool) -> (r: Result<(), Error>)
        requires
            old(self).wf(),
        ensures
            final(self).wf(),
            r == old(self).spec_end_result(caller, now, payout_ok),
            !old(self).spec_end_allowed(caller, now) ==> *final(self) == *old(self),
            old(self).spec_end_allowed(caller, now) ==> {
                &&& final(self).spec_ended()
                &&& final(self).spec_token_contract() == old(self).spec_token_contract()
                &&& final(self).spec_token_id() == old(self).spec_token_id()
                &&& final(self).spec_seller() == old(self).spec_seller()
                &&& final(self).spec_started() == old(self).spec_started()
                &&& final(self).spec_end_at() == old(self).spec_end_at()
                &&& final(self).spec_highest_bid() == old(self).spec_highest_bid()
                &&& final(self).spec_highest_bidder() == old(self).spec_highest_bidder()
                &&& final(self).spec_bids() == old(self).spec_bids()
                &&& (payout_ok ==> final(self).spec_events() == old(self).spec_events().push(
                    AuctionEvent::Ended(
                        End {
                            highest_bidder: old(self).spec_highest_bidder(),
                            highest_bid: old(self).spec_highest_bid(),
                        },
                    ),
                ))
                &&& (!payout_ok ==> final(self).spec_events() == old(self).spec_events())
            },
    {
        if caller != self.seller {
            return Err(Error::InvalidSeller);
        }
        if !self.started {
            return Err(Error::NotStarted);
        }
        if self.ended {
            return Err(Error::AlreadyEnded);
        }
        if now < self.end_at {
            return Err(Error::NotEnded);
        }
        self.ended = true;
        if !payout_ok {
            return Err(Error::PSP34TransferFailed);
        }
        self.events.push(
            AuctionEvent::Ended(
                End { highest_bidder: self.highest_bidder, highest_bid: self.highest_bid },
            ),
        );
        Ok(())
    }

    /// A caller with an escrowed refund withdraws it. The entry is cleared as
    /// soon as it is paid out — and, matching the committed-before-transfer
    /// policy, it stays cleared even when the runtime reports the refund
    /// transfer failed.
    pub fn withdraw(&mut self, caller: AccountId, transfer_ok: bool) -> (r: Result<(), Error>)
        requires
            old(self).wf(),
        ensures
            final(self).wf(),
            r == old(self).spec_withdraw_result(caller, transfer_ok),
            !old(self).spec_bids().spec_has(caller) ==> *final(self) == *old(self),
            old(self).spec_bids().spec_has(caller) ==> spec_withdraw_transition(
                *old(self),
                *final(self),
                caller,
            ),
    {
        match self.bids.take(caller) {
            None => Err(Error::NoWithdrawableBalance),
            Some(_) => {
                if transfer_ok {
                    Ok(())
                } else {
                    Err(Error::TransferFailed)
                }
            },
        }
    }

    pub fn seller(&self) -> (r: AccountId)
        ensures
            r == self.spec_seller(),
    {
        self.seller
    }

    pub fn started(&self) -> (r: bool)
        ensures
            r == self.spec_started(),
    {
        self.started
    }

    pub fn ended(&self) -> (r: bool)
        ensures
            r == self.spec_ended(),
    {
        self.ended
    }

    pub fn end_at(&self) -> (r: u64)
        ensures
            r == self.spec_end_at(),
    {
        self.end_at
    }

    pub fn highest_bid(&self) -> (r: Balance)
        ensures
            r == self.spec_highest_bid(),
    {
        self.highest_bid
    }

    pub fn highest_bidder(&self) -> (r: AccountId)
        ensures
            r == self.spec_highest_bidder(),
    {
        self.highest_bidder
    }

    /// Where the runtime must send the token when the auction ends.
    pub fn token_recipient(&self) -> (r: AccountId)
        ensures
            r == self.spec_token_recipient(),
    {
        if self.highest_bidder != BLACKHOLE_ACCOUNT_ID {
            self.seller
        } else {
            self.highest_bidder
        }
    }

    /// The refund currently escrowed for `a`, if any.
    pub fn withdrawable_of(&self, a: AccountId) -> (r: Option<Balance>)
        requires
            self.wf(),
        ensures
            r == self.spec_withdrawable(a),
    {
        self.bids.get(a)
    }

    /// The log of notifications owed to the runtime's event channel, oldest
    /// first.
    pub fn events(&self) -> (r: &Vec<AuctionEvent>)
        ensures
            r@ == self.spec_events(),
    {
        &self.events
    }
}

/// How an accepted bid changes the auction: the bidder takes over the highest
/// bid, the outbid bidder's previous stake joins its withdrawable refund, and
/// every other account's refund is untouched.
pub open spec fn spec_bid_transition(
    pre: EnglishAuction,
    post: EnglishAuction,
    caller: AccountId,
    amount: Balance,
) -> bool {
    &&& post.spec_token_contract() == pre.spec_token_contract()
    &&& post.spec_token_id() == pre.spec_token_id()
    &&& post.spec_seller() == pre.spec_seller()
    &&& post.spec_started() == pre.spec_started()
    &&& post.spec_ended() == pre.spec_ended()
    &&& post.spec_end_at() == pre.spec_end_at()
    &&& post.spec_highest_bid() == amount
    &&& post.spec_highest_bidder() == caller
    &&& post.spec_events() == pre.spec_events().push(
        AuctionEvent::BidPlaced(Bid { bidder: caller, amount }),
    )
    &&& if pre.spec_highest_bidder() == BLACKHOLE_ACCOUNT_ID {
        forall|a: AccountId| #[trigger] post.spec_withdrawable(a) == pre.spec_withdrawable(a)
    } else {
        let prev = pre.spec_highest_bidder();
        &&& post.spec_withdrawable(prev) == Some(
            (if pre.spec_bids().spec_has(prev) {
                (pre.spec_bids().spec_get(prev) + pre.spec_highest_bid()) as Balance
            } else {
                pre.spec_highest_bid()
            }),
        )
        &&& forall|a: AccountId|
            a != prev ==> #[trigger] post.spec_withdrawable(a) == pre.spec_withdrawable(a)
    }
}

/// How a withdrawal changes the auction: the caller's escrow entry is gone,
/// every other account's refund and all auction fields are untouched.
pub open spec fn spec_withdraw_transition(
    pre: EnglishAuction,
    post: EnglishAuction,
    caller: AccountId,
) -> bool {
    &&& !post.spec_bids().spec_has(caller)
    &&& forall|a: AccountId|
        a != caller ==> #[trigger] post.spec_withdrawable(a) == pre.spec_withdrawable(a)
    &&& post.spec_token_contract() == pre.spec_token_contract()
    &&& post.spec_token_id() == pre.spec_token_id()
    &&& post.spec_seller() == pre.spec_seller()
    &&& post.spec_started() == pre.spec_started()
    &&& post.spec_ended() == pre.spec_ended()
    &&& post.spec_end_at() == pre.spec_end_at()
    &&& post.spec_highest_bid() == pre.spec_highest_bid()
    &&& post.spec_highest_bidder() == pre.spec_highest_bidder()
    &&& post.spec_events() == pre.spec_events()
}

/// The highest bid only ever updates on a strictly greater payment: an
/// accepted bid raises it, and a payment at or below the current highest bid
/// is refused with `InsufficientBid`, changing nothing.
pub proof fn lemma_bid_strictly_increases(
    pre: EnglishAuction,
    post: EnglishAuction,
    caller: AccountId,
    now: u64,
    amount: Balance,
)
    requires
        pre.spec_bid_result(caller, now, amount) is Ok,
        spec_bid_transition(pre, post, caller, amount),
    ensures
        post.spec_highest_bid() > pre.spec_highest_bid(),
{
}

/// An outbid bidder's prior stake becomes withdrawable: it is added to
/// whatever that bidder already had escrowed.
pub proof fn lemma_outbid_amount_escrowed(
    pre: EnglishAuction,
    post: EnglishAuction,
    caller: AccountId,
    now: u64,
    amount: Balance,
)
    requires
        pre.spec_bid_result(caller, now, amount) is Ok,
        spec_bid_transition(pre, post, caller, amount),
        pre.spec_highest_bidder() != BLACKHOLE_ACCOUNT_ID,
    ensures
        post.spec_withdrawable(pre.spec_highest_bidder()) == Some(
            (if pre.spec_bids().spec_has(pre.spec_highest_bidder()) {
                (pre.spec_bids().spec_get(pre.spec_highest_bidder())
                    + pre.spec_highest_bid()) as Balance
            } else {
                pre.spec_highest_bid()
            }),
        ),
{
}

/// Withdrawal zeroes the caller's escrow entry exactly once: after a
/// withdrawal, a second withdrawal by the same caller always fails with
/// `NoWithdrawableBalance`, whatever the runtime reports for its transfer.
pub proof fn lemma_withdraw_zeroes_once(
    pre: EnglishAuction,
    post: EnglishAuction,
    caller: AccountId,
    transfer_ok: bool,
)
    requires
        pre.wf(),
        pre.spec_bids().spec_has(caller),
        spec_withdraw_transition(pre, post, caller),
    ensures
        post.spec_withdraw_result(caller, transfer_ok) == Err::<(), Error>(
            Error::NoWithdrawableBalance,
        ),
{
}

} // verus!
