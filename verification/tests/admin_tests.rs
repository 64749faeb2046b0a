//! Tests of owner- and pauser-gated administration: configuration
//! updates, pausing, the whitelist, the insurance registry, and the
//! staking bookkeeping.

use margined_engine::error::EngineError;
use margined_engine::insurance::InsuranceFund;
use margined_engine::staking::{ContractError, StakingState};
use margined_engine::storage::EngineStorage;
use margined_engine::types::{AssetKind, Config};

const D: u128 = 1_000_000_000;
const OWNER: u64 = 1;
const STRANGER: u64 = 2;
const ENGINE: u64 = 3;

fn test_config() -> Config {
    Config {
        owner: OWNER,
        pauser: OWNER,
        insurance_fund: Some(5),
        fee_pool: 6,
        eligible_collateral: AssetKind::Token { contract: 7 },
        decimals: D,
        initial_margin_ratio: D / 10,
        maintenance_margin_ratio: D / 20,
        partial_liquidation_ratio: D / 4,
        liquidation_fee: 25 * D / 1000,
    }
}

#[test]
fn update_config_is_owner_gated() {
    let mut store = EngineStorage::new(test_config());
    let err = margined_engine::handle::update_config(
        &mut store, STRANGER, None, None, None, None, None, None, None,
    )
    .unwrap_err();
    assert!(matches!(err, EngineError::Unauthorized));

    margined_engine::handle::update_config(
        &mut store,
        OWNER,
        Some(STRANGER),
        Some(9),
        Some(8),
        Some(D / 5),
        Some(D / 10),
        Some(D / 2),
        Some(D / 100),
    )
    .unwrap();
    let config = store.read_config();
    assert_eq!(config.owner, STRANGER);
    assert_eq!(config.insurance_fund, Some(9));
    assert_eq!(config.fee_pool, 8);
    assert_eq!(config.initial_margin_ratio, D / 5);
    assert_eq!(config.maintenance_margin_ratio, D / 10);
    assert_eq!(config.partial_liquidation_ratio, D / 2);
    assert_eq!(config.liquidation_fee, D / 100);
}

#[test]
fn update_config_rejects_bad_ratios() {
    let mut store = EngineStorage::new(test_config());
    // a ratio above 1.0
    let err = margined_engine::handle::update_config(
        &mut store, OWNER, None, None, None, Some(2 * D), None, None, None,
    )
    .unwrap_err();
    assert!(matches!(err, EngineError::InvalidRatio));
    // a maintenance requirement above the initial requirement
    let err = margined_engine::handle::update_config(
        &mut store, OWNER, None, None, None, None, Some(D / 5), None, None,
    )
    .unwrap_err();
    assert!(matches!(err, EngineError::InvalidRatio));
    // the config is untouched after the failures
    assert_eq!(store.read_config(), test_config());
}

#[test]
fn set_pause_flips_only_for_the_pauser() {
    let mut store = EngineStorage::new(test_config());
    let err = store.set_pause(STRANGER, true).unwrap_err();
    assert!(matches!(err, EngineError::Unauthorized));
    store.set_pause(OWNER, true).unwrap();
    assert!(store.read_state().pause);
    // setting the same value again is rejected
    let err = store.set_pause(OWNER, true).unwrap_err();
    assert!(matches!(err, EngineError::Unauthorized));
    store.set_pause(OWNER, false).unwrap();
    assert!(!store.read_state().pause);
}

#[test]
fn whitelist_is_pauser_gated() {
    let mut store = EngineStorage::new(test_config());
    assert!(matches!(
        store.add_whitelist(STRANGER, 42).unwrap_err(),
        EngineError::Unauthorized
    ));
    store.add_whitelist(OWNER, 42).unwrap();
    assert!(store.is_whitelisted(42));
    assert!(matches!(
        store.remove_whitelist(STRANGER, 42).unwrap_err(),
        EngineError::Unauthorized
    ));
    store.remove_whitelist(OWNER, 42).unwrap();
    assert!(!store.is_whitelisted(42));
}

#[test]
fn insurance_registry_round_trip() {
    let mut fund = InsuranceFund::new(OWNER, ENGINE);

    assert!(matches!(
        fund.add_vamm(STRANGER, 11, D, D).unwrap_err(),
        EngineError::Unauthorized
    ));
    // decimal scales must agree between the engine and the market
    assert!(matches!(
        fund.add_vamm(OWNER, 11, D, D * 10).unwrap_err(),
        EngineError::DecimalsMismatch
    ));

    fund.add_vamm(OWNER, 11, D, D).unwrap();
    assert!(fund.is_vamm(11));
    assert!(!fund.is_vamm(12));
    assert!(matches!(
        fund.add_vamm(OWNER, 11, D, D).unwrap_err(),
        EngineError::VammAlreadyRegistered
    ));

    fund.add_vamm(OWNER, 12, D, D).unwrap();
    let all = fund.shutdown_all_vamm(OWNER).unwrap();
    assert_eq!(all, vec![11, 12]);

    fund.remove_vamm(OWNER, 11).unwrap();
    assert!(!fund.is_vamm(11));
    assert!(fund.is_vamm(12));
    assert!(matches!(
        fund.remove_vamm(OWNER, 11).unwrap_err(),
        EngineError::VammNotRegistered
    ));

    // only the engine may draw on the reserve
    assert!(matches!(fund.withdraw(STRANGER, 5).unwrap_err(), EngineError::Unauthorized));
    assert_eq!(fund.withdraw(ENGINE, 5).unwrap(), 5);

    fund.update_owner(OWNER, STRANGER).unwrap();
    assert!(matches!(
        fund.update_owner(OWNER, OWNER).unwrap_err(),
        EngineError::Unauthorized
    ));
}

#[test]
fn staking_stake_unstake_claim() {
    let mut staking = StakingState::new(OWNER, 100);

    // everything is rejected while paused
    assert!(matches!(
        staking.handle_stake(STRANGER, 50, 0).unwrap_err(),
        ContractError::Paused
    ));
    staking.handle_unpause(OWNER).unwrap();
    assert!(matches!(
        staking.handle_unpause(OWNER).unwrap_err(),
        ContractError::NotPaused
    ));

    assert!(matches!(
        staking.handle_stake(STRANGER, 0, 0).unwrap_err(),
        ContractError::InvalidFunds
    ));
    staking.handle_stake(STRANGER, 50, 7).unwrap();
    staking.handle_stake(STRANGER, 25, 7).unwrap();
    assert_eq!(staking.total_staked, 75);
    assert_eq!(staking.get_stake(STRANGER).staked_amounts, 75);

    // unstaking more than the stake fails loudly
    assert!(matches!(
        staking.handle_unstake(STRANGER, 80, 0).unwrap_err(),
        ContractError::Std
    ));
    staking.handle_unstake(STRANGER, 30, 0).unwrap();
    assert_eq!(staking.total_staked, 45);
    assert_eq!(staking.get_stake(STRANGER).staked_amounts, 45);

    // claiming zeroes the claimable balance
    let (claimed, distribute) = staking.handle_claim(STRANGER, 9).unwrap();
    assert_eq!(claimed, 0);
    assert_eq!(distribute, 9);

    // pausing is owner-gated
    assert!(matches!(
        staking.handle_pause(STRANGER).unwrap_err(),
        ContractError::Unauthorized
    ));
    staking.handle_pause(OWNER).unwrap();
    assert!(matches!(staking.handle_pause(OWNER).unwrap_err(), ContractError::Paused));

    // the emission rate is owner-gated
    assert!(matches!(
        staking.handle_update_config(STRANGER, Some(5)).unwrap_err(),
        ContractError::Unauthorized
    ));
    staking.handle_update_config(OWNER, Some(5)).unwrap();
    assert_eq!(staking.tokens_per_interval, 5);
}
