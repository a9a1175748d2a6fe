use lottery_token::account::Account;
use lottery_token::errors::{Error, MintFault};
use lottery_token::gate::TrustedCallerGate;
use lottery_token::ledger::{InMemoryLedger, MintLedger};
use lottery_token::store::PendingRequestStore;

fn carol() -> Account {
    Account { hi: 3, lo: 0xca401 }
}

fn dave() -> Account {
    Account { hi: 4, lo: 0xda4e }
}

#[test]
fn store_put_resolve_remove_round_trip() {
    let mut store = PendingRequestStore::new();
    assert_eq!(store.resolve(7), None);
    store.put(7, carol()).unwrap();
    assert_eq!(store.resolve(7), Some(carol()));
    assert_eq!(store.remove(7), Some(carol()));
    assert_eq!(store.resolve(7), None);
    assert_eq!(store.remove(7), None);
}

#[test]
fn store_refuses_duplicate_handle() {
    let mut store = PendingRequestStore::new();
    store.put(7, carol()).unwrap();
    assert_eq!(store.put(7, dave()), Err(Error::DuplicateHandle));
    // The original association is untouched.
    assert_eq!(store.resolve(7), Some(carol()));
}

#[test]
fn store_keeps_handles_apart() {
    let mut store = PendingRequestStore::new();
    store.put(1, carol()).unwrap();
    store.put(2, dave()).unwrap();
    assert_eq!(store.remove(1), Some(carol()));
    assert_eq!(store.resolve(2), Some(dave()));
}

#[test]
fn gate_accepts_only_the_configured_identity() {
    let gate = TrustedCallerGate::new(carol());
    assert_eq!(gate.authorize(carol()), Ok(()));
    assert_eq!(gate.authorize(dave()), Err(Error::OnlyTrustedOracle));
    assert_eq!(gate.authorize(Account::zero()), Err(Error::OnlyTrustedOracle));
}

#[test]
fn ledger_mints_accumulate() {
    let mut ledger = InMemoryLedger::new();
    ledger.mint(carol(), 10).unwrap();
    ledger.mint(dave(), 5).unwrap();
    ledger.mint(carol(), 7).unwrap();
    assert_eq!(ledger.balance(carol()), 17);
    assert_eq!(ledger.balance(dave()), 5);
    assert_eq!(ledger.supply(), 22);
}

#[test]
fn ledger_refuses_zero_recipient() {
    let mut ledger = InMemoryLedger::new();
    assert_eq!(ledger.mint(Account::zero(), 10), Err(MintFault::InvalidRecipient));
    assert_eq!(ledger.supply(), 0);
}

#[test]
fn ledger_refuses_overflowing_supply() {
    let mut ledger = InMemoryLedger::new();
    ledger.mint(carol(), u128::MAX - 1).unwrap();
    assert_eq!(ledger.mint(dave(), 2), Err(MintFault::CapacityExceeded));
    assert_eq!(ledger.balance(dave()), 0);
    assert_eq!(ledger.supply(), u128::MAX - 1);
    // The boundary amount still fits.
    ledger.mint(dave(), 1).unwrap();
    assert_eq!(ledger.supply(), u128::MAX);
}
