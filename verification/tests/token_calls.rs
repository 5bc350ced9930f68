use dao_pallets::dispatch::{DispatchError, Origin};
use dao_pallets::memory::MemoryStore;
use dao_pallets::token::{Error, Event, GenesisConfig, Pallet, TokenInfoStruct, TokenInterface, TokenStore};

fn genesis(owner: u64, supply: u128) -> MemoryStore {
    let mut store = MemoryStore::new();
    let config = GenesisConfig {
        name: b"Gold".to_vec(),
        symbol: b"GLD".to_vec(),
        decimals: 12,
        total_supply: supply,
        owner: Some(owner),
    };
    config.build(&mut store);
    store
}

fn sum_of(store: &MemoryStore, accounts: &[u64]) -> u128 {
    accounts.iter().map(|a| store.balances(a).unwrap_or(0)).sum()
}

#[test]
fn genesis_gives_supply_to_owner() {
    let store = genesis(1, 1_000);
    assert_eq!(store.balances(&1), Some(1_000));
    assert_eq!(store.balances(&2), None);
    assert_eq!(store.totalSupply(), 1_000);
    assert_eq!(store._name(), b"Gold".to_vec());
    assert_eq!(store.symbol(), b"GLD".to_vec());
    assert_eq!(store.decimals(), 12);
    assert_eq!(store.owner(), Some(1));
}

#[test]
fn genesis_default_is_empty() {
    let config: GenesisConfig<u64> = GenesisConfig::default();
    assert!(config.name.is_empty());
    assert!(config.symbol.is_empty());
    assert_eq!(config.decimals, 0);
    assert_eq!(config.total_supply, 0);
    assert!(config.owner.is_none());
    let info = TokenInfoStruct::default();
    assert!(info.name.is_empty() && info.symbol.is_empty());
    assert_eq!(info.decimals, 0);
    assert_eq!(info.total_supply, 0);
}

#[test]
fn transfer_moves_funds() {
    let mut store = genesis(1, 1_000);
    let r = Pallet::transfer(&mut store, Origin::Signed(1), 2, 300);
    assert_eq!(r, Ok(Event::Transfered(1, 2, 300)));
    assert_eq!(store.balances(&1), Some(700));
    assert_eq!(store.balances(&2), Some(300));
    assert_eq!(sum_of(&store, &[1, 2]), 1_000);
}

#[test]
fn transfer_of_everything_leaves_zero_stored() {
    let mut store = genesis(1, 50);
    assert!(Pallet::transfer(&mut store, Origin::Signed(1), 2, 50).is_ok());
    assert_eq!(store.balances(&1), Some(0));
    assert_eq!(store.balances(&2), Some(50));
}

#[test]
fn transfer_of_zero_from_unknown_account_stores_zeros() {
    let mut store = MemoryStore::new();
    let r = Pallet::transfer(&mut store, Origin::Signed(5), 6, 0);
    assert_eq!(r, Ok(Event::Transfered(5, 6, 0)));
    assert_eq!(store.balances(&5), Some(0));
    assert_eq!(store.balances(&6), Some(0));
}

#[test]
fn transfer_beyond_balance_fails_and_changes_nothing() {
    let mut store = genesis(1, 100);
    let r = Pallet::transfer(&mut store, Origin::Signed(1), 2, 101);
    assert_eq!(r, Err(DispatchError::Module(Error::StorageOverflow)));
    assert_eq!(store.balances(&1), Some(100));
    assert_eq!(store.balances(&2), None);
}

#[test]
fn transfer_past_max_balance_fails() {
    let mut store = genesis(1, u128::MAX);
    assert!(Pallet::transfer(&mut store, Origin::Signed(1), 2, 10).is_ok());
    // 2 holds 10; giving it everything 1 has would pass u128::MAX.
    let r = Pallet::transfer(&mut store, Origin::Signed(1), 2, u128::MAX - 10);
    assert_eq!(r, Ok(Event::Transfered(1, 2, u128::MAX - 10)));
    let mut store = genesis(1, u128::MAX);
    store.set_balance(&2, 1);
    let r = Pallet::transfer(&mut store, Origin::Signed(1), 2, u128::MAX);
    assert_eq!(r, Err(DispatchError::Module(Error::StorageOverflow)));
    assert_eq!(store.balances(&1), Some(u128::MAX));
    assert_eq!(store.balances(&2), Some(1));
}

#[test]
fn transfer_needs_a_signed_origin() {
    let mut store = genesis(1, 100);
    assert_eq!(Pallet::transfer(&mut store, Origin::Root, 2, 1), Err(DispatchError::BadOrigin));
    assert_eq!(Pallet::transfer(&mut store, Origin::Unsigned, 2, 1), Err(DispatchError::BadOrigin));
    assert_eq!(store.balances(&1), Some(100));
    assert_eq!(store.balances(&2), None);
}

#[test]
fn transfer_to_self_credits_the_amount() {
    let mut store = genesis(1, 100);
    let r = Pallet::transfer(&mut store, Origin::Signed(1), 1, 40);
    assert_eq!(r, Ok(Event::Transfered(1, 1, 40)));
    assert_eq!(store.balances(&1), Some(140));
}

#[test]
fn transfer_and_back_restores_balances() {
    let mut store = genesis(1, 100);
    assert!(Pallet::transfer(&mut store, Origin::Signed(1), 2, 30).is_ok());
    assert!(Pallet::transfer(&mut store, Origin::Signed(2), 1, 30).is_ok());
    assert_eq!(store.balances(&1), Some(100));
    assert_eq!(store.balances(&2), Some(0));
}

#[test]
fn approve_sets_and_replaces_allowance() {
    let mut store = genesis(1, 100);
    assert_eq!(Pallet::approve(&mut store, Origin::Signed(1), 2, 25), Ok(Event::Approval(1, 2, 25)));
    assert_eq!(store.allowed(&1, &2), Some(25));
    assert_eq!(store.allowed(&2, &1), None);
    assert_eq!(Pallet::approve(&mut store, Origin::Signed(1), 2, 5), Ok(Event::Approval(1, 2, 5)));
    assert_eq!(store.allowed(&1, &2), Some(5));
    assert_eq!(store.balances(&1), Some(100));
    assert_eq!(Pallet::approve(&mut store, Origin::Root, 2, 9), Err(DispatchError::BadOrigin));
    assert_eq!(store.allowed(&1, &2), Some(5));
}

#[test]
fn approve_beyond_balance_is_allowed() {
    let mut store = MemoryStore::new();
    assert!(Pallet::approve(&mut store, Origin::Signed(3), 4, u128::MAX).is_ok());
    assert_eq!(store.allowed(&3, &4), Some(u128::MAX));
}

#[test]
fn transfer_from_spends_allowance() {
    let mut store = genesis(1, 100);
    Pallet::approve(&mut store, Origin::Signed(1), 2, 60).unwrap();
    let r = Pallet::transferFrom(&mut store, Origin::Signed(2), 1, 3, 45);
    assert_eq!(r, Ok(Event::TransferedFrom(2, 1, 3, 45)));
    assert_eq!(store.allowed(&1, &2), Some(15));
    assert_eq!(store.balances(&1), Some(55));
    assert_eq!(store.balances(&3), Some(45));
    assert_eq!(store.balances(&2), None);
    assert_eq!(sum_of(&store, &[1, 2, 3]), 100);
}

#[test]
fn transfer_from_beyond_allowance_fails() {
    let mut store = genesis(1, 100);
    Pallet::approve(&mut store, Origin::Signed(1), 2, 10).unwrap();
    let r = Pallet::transferFrom(&mut store, Origin::Signed(2), 1, 3, 11);
    assert_eq!(r, Err(DispatchError::Module(Error::StorageOverflow)));
    assert_eq!(store.allowed(&1, &2), Some(10));
    assert_eq!(store.balances(&1), Some(100));
    assert_eq!(store.balances(&3), None);
}

#[test]
fn transfer_from_without_allowance_fails() {
    let mut store = genesis(1, 100);
    let r = Pallet::transferFrom(&mut store, Origin::Signed(2), 1, 3, 1);
    assert_eq!(r, Err(DispatchError::Module(Error::StorageOverflow)));
    assert_eq!(store.allowed(&1, &2), None);
}

#[test]
fn transfer_from_beyond_balance_fails() {
    let mut store = genesis(1, 100);
    Pallet::approve(&mut store, Origin::Signed(1), 2, 500).unwrap();
    let r = Pallet::transferFrom(&mut store, Origin::Signed(2), 1, 3, 101);
    assert_eq!(r, Err(DispatchError::Module(Error::StorageOverflow)));
    assert_eq!(store.allowed(&1, &2), Some(500));
    assert_eq!(store.balances(&1), Some(100));
}

#[test]
fn transfer_from_past_max_balance_fails() {
    let mut store = genesis(1, 100);
    store.set_balance(&3, u128::MAX);
    Pallet::approve(&mut store, Origin::Signed(1), 2, 50).unwrap();
    let r = Pallet::transferFrom(&mut store, Origin::Signed(2), 1, 3, 1);
    assert_eq!(r, Err(DispatchError::Module(Error::StorageOverflow)));
    assert_eq!(store.allowed(&1, &2), Some(50));
    assert_eq!(store.balances(&1), Some(100));
    assert_eq!(store.balances(&3), Some(u128::MAX));
}

#[test]
fn transfer_from_needs_a_signed_origin() {
    let mut store = genesis(1, 100);
    Pallet::approve(&mut store, Origin::Signed(1), 2, 50).unwrap();
    let r = Pallet::transferFrom(&mut store, Origin::Unsigned, 1, 3, 1);
    assert_eq!(r, Err(DispatchError::BadOrigin));
    assert_eq!(store.allowed(&1, &2), Some(50));
}

#[test]
fn transfer_from_to_self_credits_the_amount() {
    let mut store = genesis(1, 100);
    Pallet::approve(&mut store, Origin::Signed(1), 2, 50).unwrap();
    assert!(Pallet::transferFrom(&mut store, Origin::Signed(2), 1, 1, 20).is_ok());
    assert_eq!(store.balances(&1), Some(120));
    assert_eq!(store.allowed(&1, &2), Some(30));
}

#[test]
fn balance_of_reads_zero_for_unknown_accounts() {
    let store = genesis(1, 77);
    assert_eq!(Pallet::balance_of(&store, &1), 77);
    assert_eq!(Pallet::balance_of(&store, &9), 0);
    assert_eq!(store._balanceOf(&1), 77);
    assert_eq!(store._balanceOf(&9), 0);
}

#[test]
fn allowance_bounds_a_series_of_spends() {
    let mut store = genesis(1, 1_000);
    Pallet::approve(&mut store, Origin::Signed(1), 2, 60).unwrap();
    assert!(Pallet::transferFrom(&mut store, Origin::Signed(2), 1, 3, 20).is_ok());
    // Calls that do not touch the allowance of 2 over 1's funds.
    assert!(Pallet::transfer(&mut store, Origin::Signed(1), 4, 100).is_ok());
    Pallet::approve(&mut store, Origin::Signed(1), 5, 7).unwrap();
    Pallet::approve(&mut store, Origin::Signed(4), 2, 90).unwrap();
    assert!(Pallet::transferFrom(&mut store, Origin::Signed(2), 4, 3, 30).is_ok());
    assert!(Pallet::transferFrom(&mut store, Origin::Signed(2), 1, 2, 25).is_ok());
    assert_eq!(store.allowed(&1, &2), Some(15));
    // 60 allowed, 45 taken: 16 more is refused, 15 is not.
    let r = Pallet::transferFrom(&mut store, Origin::Signed(2), 1, 3, 16);
    assert_eq!(r, Err(DispatchError::Module(Error::StorageOverflow)));
    assert!(Pallet::transferFrom(&mut store, Origin::Signed(2), 1, 3, 15).is_ok());
    assert_eq!(store.allowed(&1, &2), Some(0));
    assert_eq!(store.balances(&1), Some(1_000 - 100 - 20 - 25 - 15));
}

#[test]
fn token_info_clones() {
    let info = TokenInfoStruct { name: b"Gold".to_vec(), symbol: b"GLD".to_vec(), decimals: 2, total_supply: 9 };
    let copy = info.clone();
    assert_eq!(copy.name, info.name);
    assert_eq!(copy.symbol, info.symbol);
    assert_eq!(copy.decimals, 2);
    assert_eq!(copy.total_supply, 9);
    assert!(format!("{:?}", copy).contains("TokenInfoStruct"));
}
