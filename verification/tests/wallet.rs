use multi_sig_wallet::account::PendingTransfer;
use multi_sig_wallet::wallet::Wallet;

const ALICE: u64 = 1;
const EVE: u64 = 9;

fn create_contract(initial_balance: u128) -> Wallet {
    let mut wallet = Wallet::new(ALICE);
    wallet.receive(initial_balance);
    wallet
}

#[test]
fn test_constructor_works() {
    let wallet = Wallet::new(ALICE);
    assert_eq!(wallet.get_owner(), ALICE);
}

#[test]
fn test_get_balance_works() {
    let wallet = create_contract(100);
    assert_eq!(wallet.get_balance(), 100);
}

#[test]
fn test_withdraw_works() {
    let mut wallet = create_contract(100);
    let mut alice_balance: u128 = 0;

    let former_balance = alice_balance;
    let order = wallet.withdraw(ALICE, 10);
    assert_eq!(order, PendingTransfer { to: ALICE, value: 10 });
    alice_balance += order.value;
    let current_balance = alice_balance;

    assert!(current_balance - former_balance == 10);
    assert_eq!(wallet.get_balance(), 90);
}

#[test]
fn test_recieve_works() {
    let mut wallet = create_contract(100);
    // anyone may pay in, including someone who is not the owner
    assert_ne!(wallet.get_owner(), EVE);
    wallet.receive(10);
    assert_eq!(wallet.get_balance(), 110);
}
