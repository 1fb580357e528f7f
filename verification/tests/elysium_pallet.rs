use elysium::account::AccountId;
use elysium::elysium::{Config, Error, Event, GenesisConfig, Pallet};
use elysium::origin::{DispatchError, RawOrigin};

fn acc(n: u8) -> AccountId {
    AccountId::new([n; 32])
}

fn pallet() -> Pallet {
    Pallet::new(Config { maximum_supply: 7 })
}

#[test]
fn add_signer_inserts_and_deposits_event() {
    let mut p = pallet();
    assert_eq!(p.add_signer(RawOrigin::Root, acc(1)), Ok(()));
    assert_eq!(p.signers(&acc(1)), Some(true));
    assert_eq!(p.signers(&acc(2)), None);
    assert_eq!(p.event(0), Event::SignerAdded(acc(1)));
}

#[test]
fn add_existing_signer_is_refused() {
    let mut p = pallet();
    p.add_signer(RawOrigin::Root, acc(1)).unwrap();
    assert_eq!(p.add_signer(RawOrigin::Root, acc(1)), Err(DispatchError::Elysium(Error::AlreadySigner)));
    assert_eq!(p.event_count(), 1);
}

#[test]
fn remove_signer_removes() {
    let mut p = pallet();
    p.add_signer(RawOrigin::Root, acc(1)).unwrap();
    p.add_signer(RawOrigin::Root, acc(2)).unwrap();
    assert_eq!(p.remove_signer(RawOrigin::Root, acc(1)), Ok(()));
    assert_eq!(p.signers(&acc(1)), None);
    assert_eq!(p.signers(&acc(2)), Some(true));
    assert_eq!(p.event(2), Event::SignerRemoved(acc(1)));
}

#[test]
fn remove_non_signer_is_refused() {
    let mut p = pallet();
    assert_eq!(p.remove_signer(RawOrigin::Root, acc(3)), Err(DispatchError::Elysium(Error::NotSigner)));
    assert_eq!(p.event_count(), 0);
}

#[test]
fn signer_calls_need_root() {
    let mut p = pallet();
    assert_eq!(p.add_signer(RawOrigin::Signed(acc(1)), acc(1)), Err(DispatchError::BadOrigin));
    assert_eq!(p.remove_signer(RawOrigin::Unsigned, acc(1)), Err(DispatchError::BadOrigin));
    assert_eq!(p.add_wallet(RawOrigin::Signed(acc(1)), acc(1)), Err(DispatchError::BadOrigin));
    assert_eq!(p.foundation_wallet(), None);
}

#[test]
fn add_wallet_sets_and_replaces() {
    let mut p = pallet();
    assert_eq!(p.add_wallet(RawOrigin::Root, acc(4)), Ok(()));
    assert_eq!(p.foundation_wallet(), Some(acc(4)));
    assert_eq!(p.add_wallet(RawOrigin::Root, acc(5)), Ok(()));
    assert_eq!(p.foundation_wallet(), Some(acc(5)));
    assert_eq!(p.event_count(), 0);
}

#[test]
fn genesis_sets_balance_and_main_accounts_last_wins() {
    let mut p = pallet();
    let g = GenesisConfig { balance: 1_000, main_account: vec![(acc(1), 10), (acc(2), 20), (acc(1), 30)] };
    g.build(&mut p);
    assert_eq!(p.balance(), 1_000);
    assert_eq!(p.main_account(&acc(1)), Some(30));
    assert_eq!(p.main_account(&acc(2)), Some(20));
    assert_eq!(p.main_account(&acc(3)), None);
    assert_eq!(p.maximum_supply(), 7);
}

#[test]
fn default_signer_genesis_is_empty() {
    let g = GenesisConfig::default();
    assert_eq!(g.balance, 0);
    assert!(g.main_account.is_empty());
}
