use multi_sig_wallet::english_auction::{
    AuctionEvent, Bid, EnglishAuction, End, Error, AUCTION_DURATION, BLACKHOLE_ACCOUNT_ID,
};

const SELLER: u64 = 1;
const TOKEN_CONTRACT: u64 = 50;
const P: u64 = 2;
const Q: u64 = 3;

fn started_auction() -> EnglishAuction {
    let mut a = EnglishAuction::new(SELLER, TOKEN_CONTRACT, 7);
    assert_eq!(a.start(SELLER, 1_000, true), Ok(()));
    a
}

#[test]
fn start_checks_seller_state_and_deposit() {
    let mut a = EnglishAuction::new(SELLER, TOKEN_CONTRACT, 7);
    assert_eq!(a.seller(), SELLER);
    assert_eq!(a.highest_bidder(), BLACKHOLE_ACCOUNT_ID);
    assert_eq!(a.highest_bid(), 0);

    assert_eq!(a.start(P, 1_000, true), Err(Error::InvalidSeller));
    // a failed token deposit leaves the auction unstarted
    assert_eq!(a.start(SELLER, 1_000, false), Err(Error::PSP34TransferFailed));
    assert!(!a.started());

    assert_eq!(a.start(SELLER, 1_000, true), Ok(()));
    assert!(a.started());
    assert_eq!(a.end_at(), 1_000 + AUCTION_DURATION);
    assert_eq!(a.start(SELLER, 1_000, true), Err(Error::AlreadyStarted));
}

#[test]
fn highest_bid_updates_only_on_strictly_greater_payment() {
    let mut a = started_auction();
    assert_eq!(a.bid(P, 1_100, 100), Ok(()));
    assert_eq!(a.highest_bid(), 100);
    assert_eq!(a.highest_bidder(), P);

    // an equal payment is refused and changes nothing
    assert_eq!(a.bid(Q, 1_100, 100), Err(Error::InsufficientBid));
    assert_eq!(a.highest_bid(), 100);
    assert_eq!(a.highest_bidder(), P);

    // a strictly greater payment takes over
    assert_eq!(a.bid(Q, 1_100, 101), Ok(()));
    assert_eq!(a.highest_bid(), 101);
    assert_eq!(a.highest_bidder(), Q);
}

#[test]
fn outbid_amounts_accumulate_for_withdrawal() {
    let mut a = started_auction();
    assert_eq!(a.withdrawable_of(P), None);
    assert_eq!(a.bid(P, 1_100, 100), Ok(()));
    // the first bid displaces nobody
    assert_eq!(a.withdrawable_of(P), None);

    assert_eq!(a.bid(Q, 1_100, 150), Ok(()));
    assert_eq!(a.withdrawable_of(P), Some(100));
    assert_eq!(a.withdrawable_of(Q), None);

    assert_eq!(a.bid(P, 1_200, 200), Ok(()));
    assert_eq!(a.withdrawable_of(Q), Some(150));

    assert_eq!(a.bid(Q, 1_200, 300), Ok(()));
    // P's two displaced stakes have accumulated
    assert_eq!(a.withdrawable_of(P), Some(100 + 200));
}

#[test]
fn withdrawal_zeroes_the_entry_exactly_once() {
    let mut a = started_auction();
    assert_eq!(a.bid(P, 1_100, 100), Ok(()));
    assert_eq!(a.bid(Q, 1_100, 150), Ok(()));
    assert_eq!(a.withdrawable_of(P), Some(100));

    assert_eq!(a.withdraw(P, true), Ok(()));
    assert_eq!(a.withdrawable_of(P), None);
    // a second withdrawal finds nothing
    assert_eq!(a.withdraw(P, true), Err(Error::NoWithdrawableBalance));

    // someone with no escrowed refund has nothing to withdraw
    assert_eq!(a.withdraw(Q, true), Err(Error::NoWithdrawableBalance));
}

#[test]
fn failed_refund_transfer_still_clears_the_entry() {
    let mut a = started_auction();
    assert_eq!(a.bid(P, 1_100, 100), Ok(()));
    assert_eq!(a.bid(Q, 1_100, 150), Ok(()));

    assert_eq!(a.withdraw(P, false), Err(Error::TransferFailed));
    assert_eq!(a.withdrawable_of(P), None);
    assert_eq!(a.withdraw(P, true), Err(Error::NoWithdrawableBalance));
}

#[test]
fn bidding_window_is_enforced() {
    let mut fresh = EnglishAuction::new(SELLER, TOKEN_CONTRACT, 7);
    assert_eq!(fresh.bid(P, 900, 10), Err(Error::NotStarted));

    let mut a = started_auction();
    // the seller may not bid
    assert_eq!(a.bid(SELLER, 1_100, 10), Err(Error::InvalidBidder));
    // at or past the end time, bidding is over
    assert_eq!(a.bid(P, 1_600, 10), Err(Error::AlreadyEnded));
    assert_eq!(a.bid(P, 1_599, 10), Ok(()));
}

#[test]
fn ending_routes_the_token_and_freezes_the_auction() {
    let mut a = started_auction();
    assert_eq!(a.bid(P, 1_100, 100), Ok(()));

    assert_eq!(a.end(P, 1_700, true), Err(Error::InvalidSeller));
    assert_eq!(a.end(SELLER, 1_500, true), Err(Error::NotEnded));

    // with a bidder on record the token order goes to the seller's side
    assert_eq!(a.token_recipient(), SELLER);
    assert_eq!(a.end(SELLER, 1_700, true), Ok(()));
    assert!(a.ended());
    assert_eq!(a.end(SELLER, 1_700, true), Err(Error::AlreadyEnded));
    assert_eq!(a.bid(Q, 1_700, 500), Err(Error::AlreadyEnded));

    let events = a.events().clone();
    assert_eq!(
        events,
        vec![
            AuctionEvent::BidPlaced(Bid { bidder: P, amount: 100 }),
            AuctionEvent::Ended(End { highest_bidder: P, highest_bid: 100 }),
        ]
    );
}

#[test]
fn failed_payout_still_ends_the_auction() {
    let mut a = started_auction();
    assert_eq!(a.end(SELLER, 1_700, false), Err(Error::PSP34TransferFailed));
    // the close was committed before the payout was attempted
    assert!(a.ended());
    assert_eq!(a.end(SELLER, 1_700, true), Err(Error::AlreadyEnded));
}

#[test]
fn ending_an_unstarted_auction_fails() {
    let mut a = EnglishAuction::new(SELLER, TOKEN_CONTRACT, 7);
    assert_eq!(a.end(SELLER, 1_700, true), Err(Error::NotStarted));
    // with no bidder, the token order goes back to the placeholder
    assert_eq!(a.token_recipient(), BLACKHOLE_ACCOUNT_ID);
}
