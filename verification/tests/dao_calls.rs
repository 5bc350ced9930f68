use dao_pallets::dao::{
    DaoSettings, Error, Event, Pallet, DAYS, HOURS, MINUTES, WEEKS, executeProposalPeriod,
    minProposalDebatePeriod, preSupportTime, quorumHalvingPeriod, maxDepositDivisor,
    INITIAL_MIN_QUORUM_DIVISOR,
};
use dao_pallets::dispatch::{DispatchError, Origin, Pays, PostDispatchInfo};
use dao_pallets::memory::MemoryStore;
use dao_pallets::token::GenesisConfig;

#[test]
fn time_constants() {
    assert_eq!(MINUTES, 10);
    assert_eq!(HOURS, 600);
    assert_eq!(DAYS, 14_400);
    assert_eq!(WEEKS, 100_800);
    assert_eq!(minProposalDebatePeriod, 201_600);
    assert_eq!(quorumHalvingPeriod, 2_520_000);
    assert_eq!(executeProposalPeriod, 144_000);
    assert_eq!(preSupportTime, 28_800);
    assert_eq!(maxDepositDivisor, 100);
}

#[test]
fn call_balances_reports_token_balance() {
    let mut tokens = MemoryStore::new();
    GenesisConfig { name: vec![], symbol: vec![], decimals: 0, total_supply: 500, owner: Some(4u64) }
        .build(&mut tokens);
    assert_eq!(Pallet::call_balances(&tokens, Origin::Signed(9), 4), Ok(Event::CallBalances(500, 4)));
    assert_eq!(Pallet::call_balances(&tokens, Origin::Signed(9), 5), Ok(Event::CallBalances(0, 5)));
    assert_eq!(Pallet::call_balances(&tokens, Origin::Root, 4), Err(DispatchError::<Error>::BadOrigin));
}

#[test]
fn get_current_time_reports_now() {
    assert_eq!(
        Pallet::get_current_time::<u64>(Origin::Signed(1), 1_700_000_000_000),
        Ok(Event::CallCurrentTime(1_700_000_000_000))
    );
    assert_eq!(Pallet::get_current_time::<u64>(Origin::Unsigned, 5), Err(DispatchError::BadOrigin));
}

#[test]
fn expensive_or_cheap_reports_small_weight() {
    let expected = Ok(PostDispatchInfo { actual_weight: Some(10_000), pays_fee: Pays::Yes });
    assert_eq!(Pallet::expensive_or_cheap::<u64>(Origin::Signed(1), 3), expected);
    assert_eq!(Pallet::expensive_or_cheap::<u64>(Origin::Unsigned, 0), expected);
}

#[test]
fn founding_sets_curator_deposit_time_and_divisor() {
    let r = Pallet::DAO(Origin::Signed(1u64), 7, 1_000, 86_400);
    assert_eq!(
        r,
        Ok(DaoSettings { curator: 7, proposal_deposit: 1_000, last_time_min_quorum_met: 86_400, min_quorum_divisor: 7 })
    );
    assert_eq!(INITIAL_MIN_QUORUM_DIVISOR, 7);
}

#[test]
fn founding_saturates_time() {
    let r = Pallet::DAO(Origin::Signed(1u64), 2, 0, 1_700_000_000_000).unwrap();
    assert_eq!(r.last_time_min_quorum_met, u32::MAX);
    let r = Pallet::DAO(Origin::Signed(1u64), 2, 0, u32::MAX as u64).unwrap();
    assert_eq!(r.last_time_min_quorum_met, u32::MAX);
    let r = Pallet::DAO(Origin::Signed(1u64), 2, 0, u32::MAX as u64 + 1).unwrap();
    assert_eq!(r.last_time_min_quorum_met, u32::MAX);
}

#[test]
fn founding_needs_a_signed_origin() {
    assert_eq!(Pallet::DAO(Origin::Root, 7u64, 1, 1), Err(DispatchError::<Error>::BadOrigin));
}
