use multi_sig_wallet::account::PendingTransfer;
use multi_sig_wallet::multi_sig_wallet::{
    ConfirmTransaction, Error, Event, MultiSigWallet, RevokeConfirmation, SubmitTransaction,
};

const A: u64 = 1;
const B: u64 = 2;
const C: u64 = 3;
const D: u64 = 4;
const EVE: u64 = 9;

fn abc_wallet(threshold: u32) -> MultiSigWallet {
    MultiSigWallet::new(vec![A, B, C], threshold)
}

#[test]
fn construction_dedups_and_validates() {
    // threshold exceeding the deduplicated owner count of 2 must fail
    assert!(MultiSigWallet::try_new(vec![A, A, B], 3).is_none());
    // threshold 0 must fail
    assert!(MultiSigWallet::try_new(vec![A, B], 0).is_none());
    // no owners at all must fail
    assert!(MultiSigWallet::try_new(vec![], 1).is_none());
    // a valid configuration succeeds, with owners deduplicated in order
    let w = MultiSigWallet::try_new(vec![A, A, B], 2).expect("valid configuration");
    assert_eq!(w.owners().clone(), vec![A, B]);
    assert_eq!(w.threshold(), 2);
    assert_eq!(w.transaction_count(), 0);
    // non-consecutive duplicates are removed as well
    let w2 = MultiSigWallet::try_new(vec![A, B, A, C, B], 3).expect("valid configuration");
    assert_eq!(w2.owners().clone(), vec![A, B, C]);
}

#[test]
fn quorum_scenario_runs_to_exactly_one_execution() {
    // owners = {A,B,C}, threshold = 2
    let mut w = abc_wallet(2);
    let mut d_balance: u128 = 0;

    // A submits (to=D, value=100) -> id 0
    assert_eq!(w.submit_transaction(A, D, 100), Ok(0));
    let tx = w.get_transaction(0).unwrap();
    assert_eq!(tx.to, D);
    assert_eq!(tx.value, 100);
    assert!(!tx.executed);
    assert_eq!(tx.num_confirmations, 0);

    // B confirms -> count 1; execution is one confirmation short
    assert_eq!(w.confirm_transaction(B, 0), Ok(()));
    assert_eq!(w.get_transaction(0).unwrap().num_confirmations, 1);
    assert_eq!(w.execute_transaction(A, 0), Err(Error::InsufficientConfirmations));

    // C confirms -> count 2
    assert_eq!(w.confirm_transaction(C, 0), Ok(()));
    assert_eq!(w.get_transaction(0).unwrap().num_confirmations, 2);

    // A executes -> success; the runtime moves the funds to D exactly once
    let order = w.execute_transaction(A, 0).unwrap();
    assert_eq!(order, PendingTransfer { to: D, value: 100 });
    d_balance += order.value;
    assert_eq!(MultiSigWallet::complete_execution(true), Ok(()));
    assert_eq!(d_balance, 100);
    assert!(w.get_transaction(0).unwrap().executed);

    // B confirming again fails: its record survived execution as an audit
    // trail, and the record check comes first
    assert_eq!(w.confirm_transaction(B, 0), Err(Error::TransactionAlreadyConfirmed));
    // a fresh confirmer is turned away because the proposal is executed
    assert_eq!(w.confirm_transaction(A, 0), Err(Error::TransactionAlreadyExecuted));
    // and so is a second execution
    assert_eq!(w.execute_transaction(A, 0), Err(Error::TransactionAlreadyExecuted));
    assert_eq!(d_balance, 100);
}

#[test]
fn non_owners_are_rejected_without_state_change() {
    let mut w = abc_wallet(2);
    assert_eq!(w.submit_transaction(A, D, 5), Ok(0));
    let before = w.get_transaction(0).unwrap();

    assert_eq!(w.submit_transaction(EVE, D, 100), Err(Error::InvalidOwner));
    assert_eq!(w.confirm_transaction(EVE, 0), Err(Error::InvalidOwner));
    assert_eq!(w.revoke_cofirmation(EVE, 0), Err(Error::InvalidOwner));
    assert_eq!(w.execute_transaction(EVE, 0), Err(Error::InvalidOwner));

    assert_eq!(w.transaction_count(), 1);
    assert_eq!(w.get_transaction(0).unwrap(), before);
    assert!(!w.is_owner(EVE));
    assert!(w.is_owner(A));
}

#[test]
fn confirm_revoke_confirm_counts_once() {
    let mut w = abc_wallet(2);
    assert_eq!(w.submit_transaction(A, D, 7), Ok(0));

    assert_eq!(w.confirm_transaction(A, 0), Ok(()));
    assert_eq!(w.revoke_cofirmation(A, 0), Ok(()));
    assert_eq!(w.get_transaction(0).unwrap().num_confirmations, 0);
    assert!(!w.is_confirmed_by(0, A));

    assert_eq!(w.confirm_transaction(A, 0), Ok(()));
    // the count is restored to 1, not accumulated to 2
    assert_eq!(w.get_transaction(0).unwrap().num_confirmations, 1);
    assert!(w.is_confirmed_by(0, A));
}

#[test]
fn confirmation_bookkeeping_errors() {
    let mut w = abc_wallet(2);
    assert_eq!(w.submit_transaction(A, D, 1), Ok(0));

    // unknown ids
    assert_eq!(w.confirm_transaction(A, 5), Err(Error::InvalidTransactionId));
    assert_eq!(w.execute_transaction(A, 5), Err(Error::InvalidTransactionId));
    assert_eq!(w.get_transaction(5), Err(Error::InvalidTransactionId));
    // revoking checks the record first, so an unknown id reads as unconfirmed
    assert_eq!(w.revoke_cofirmation(A, 5), Err(Error::TransactionNotConfirmed));

    // double confirmation by the same owner
    assert_eq!(w.confirm_transaction(B, 0), Ok(()));
    assert_eq!(w.confirm_transaction(B, 0), Err(Error::TransactionAlreadyConfirmed));
    assert_eq!(w.get_transaction(0).unwrap().num_confirmations, 1);

    // revoking without a record
    assert_eq!(w.revoke_cofirmation(C, 0), Err(Error::TransactionNotConfirmed));

    // a failed value transfer surfaces TransactionFailed
    assert_eq!(MultiSigWallet::complete_execution(false), Err(Error::TransactionFailed));
}

#[test]
fn executed_proposals_freeze_their_records() {
    let mut w = abc_wallet(1);
    assert_eq!(w.submit_transaction(A, D, 3), Ok(0));
    assert_eq!(w.confirm_transaction(A, 0), Ok(()));
    let order = w.execute_transaction(B, 0).unwrap();
    assert_eq!(order.to, D);

    // the audit trail survives execution, but can no longer be changed
    assert!(w.is_confirmed_by(0, A));
    assert_eq!(w.revoke_cofirmation(A, 0), Err(Error::TransactionAlreadyExecuted));
    assert_eq!(w.confirm_transaction(B, 0), Err(Error::TransactionAlreadyExecuted));
    assert_eq!(w.get_transaction(0).unwrap().num_confirmations, 1);
}

#[test]
fn proposal_ids_count_up_and_are_independent() {
    let mut w = abc_wallet(2);
    assert_eq!(w.submit_transaction(A, D, 10), Ok(0));
    assert_eq!(w.submit_transaction(B, EVE, 20), Ok(1));
    assert_eq!(w.submit_transaction(A, D, 30), Ok(2));
    assert_eq!(w.transaction_count(), 3);

    assert_eq!(w.confirm_transaction(A, 1), Ok(()));
    assert_eq!(w.get_transaction(0).unwrap().num_confirmations, 0);
    assert_eq!(w.get_transaction(1).unwrap().num_confirmations, 1);
    assert_eq!(w.get_transaction(2).unwrap().num_confirmations, 0);
    assert_eq!(w.get_transaction(1).unwrap().to, EVE);
    assert_eq!(w.get_transaction(1).unwrap().value, 20);
}

#[test]
fn event_log_records_submissions_confirmations_revocations() {
    let mut w = abc_wallet(2);
    assert_eq!(w.submit_transaction(A, D, 100), Ok(0));
    assert_eq!(w.confirm_transaction(B, 0), Ok(()));
    assert_eq!(w.revoke_cofirmation(B, 0), Ok(()));
    // failed calls log nothing
    assert_eq!(w.confirm_transaction(EVE, 0), Err(Error::InvalidOwner));

    let events = w.events().clone();
    assert_eq!(
        events,
        vec![
            Event::Submitted(SubmitTransaction { owner: A, transaction_id: 0, to: D, value: 100 }),
            Event::Confirmed(ConfirmTransaction { owner: B, transaction_id: 0 }),
            Event::Revoked(RevokeConfirmation { owner: B, transaction_id: 0 }),
        ]
    );
}

#[test]
fn execution_succeeds_exactly_at_threshold() {
    let mut w = abc_wallet(3);
    assert_eq!(w.submit_transaction(A, D, 42), Ok(0));
    assert_eq!(w.confirm_transaction(A, 0), Ok(()));
    assert_eq!(w.confirm_transaction(B, 0), Ok(()));
    // one less than the threshold always fails
    assert_eq!(w.execute_transaction(C, 0), Err(Error::InsufficientConfirmations));
    assert_eq!(w.confirm_transaction(C, 0), Ok(()));
    assert_eq!(w.execute_transaction(C, 0), Ok(PendingTransfer { to: D, value: 42 }));
}
