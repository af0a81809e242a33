use multi_sig_wallet::psp22::{MyPSP22, Psp22Error};

const ALICE: u64 = 1;
const BOB: u64 = 2;

fn token() -> MyPSP22 {
    MyPSP22::new(ALICE, 1_000, 10_000, Some("Coin".to_string()), Some("CN".to_string()), 12)
}

#[test]
fn construction_mints_the_initial_supply() {
    let t = token();
    assert_eq!(t.cap(), 10_000);
    assert_eq!(t.total_supply(), 1_000);
    assert_eq!(t.balance_of(ALICE), 1_000);
    assert_eq!(t.balance_of(BOB), 0);
    assert_eq!(t.decimals(), 12);
}

#[test]
fn construction_is_refused_for_bad_caps() {
    assert_eq!(
        MyPSP22::try_new(ALICE, 0, 0, None, None, 0).map(|_| ()),
        Err(Psp22Error::ZeroCap)
    );
    assert_eq!(
        MyPSP22::try_new(ALICE, 11, 10, None, None, 0).map(|_| ()),
        Err(Psp22Error::CapExceeded)
    );
    assert!(MyPSP22::try_new(ALICE, 10, 10, None, None, 0).is_ok());
}

#[test]
fn minting_respects_the_cap() {
    let mut t = token();
    assert_eq!(t.mint(BOB, 500), Ok(()));
    assert_eq!(t.total_supply(), 1_500);
    assert_eq!(t.balance_of(BOB), 500);

    // up to the cap is fine
    assert_eq!(t.mint(BOB, 8_500), Ok(()));
    assert_eq!(t.total_supply(), 10_000);

    // one more token would exceed the cap, and nothing changes
    let e = t.mint(BOB, 1).unwrap_err();
    assert_eq!(e, Psp22Error::CapExceeded);
    assert_eq!(e.message(), "Cap exceeded");
    assert_eq!(Psp22Error::ZeroCap.message(), "Cap must be above 0");
    assert_eq!(t.total_supply(), 10_000);
    assert_eq!(t.balance_of(BOB), 9_000);
    assert_eq!(t.balance_of(ALICE), 1_000);
}
