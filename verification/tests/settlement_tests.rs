//! Settlement edge cases: missing or mismatched intents, out-of-range
//! amounts, funding restriction mode, oracle pricing, and the funding
//! record accessors.

use margined_engine::error::EngineError;
use margined_engine::guards::MarketStatus;
use margined_engine::handle::open_position;
use margined_engine::integer::{Integer, MAX_AMOUNT};
use margined_engine::margin::{get_margin_ratio_calc_option, AmmQuote};
use margined_engine::reply::{increase_position_reply, liquidate_reply, pay_funding_reply};
use margined_engine::storage::EngineStorage;
use margined_engine::types::{Asset, AssetKind, Config, PnlCalcOption, Side};

const D: u128 = 1_000_000_000;
const VAMM: u64 = 11;
const ALICE: u64 = 21;
const OWNER: u64 = 1;

fn test_config() -> Config {
    Config {
        owner: OWNER,
        pauser: OWNER,
        insurance_fund: Some(5),
        fee_pool: 6,
        eligible_collateral: AssetKind::Token { contract: 7 },
        decimals: D,
        initial_margin_ratio: D / 10,
        maintenance_margin_ratio: D / 10,
        partial_liquidation_ratio: D / 4,
        liquidation_fee: 25 * D / 1000,
    }
}

#[test]
fn settlement_without_intent_is_rejected() {
    let mut store = EngineStorage::new(test_config());
    let err = increase_position_reply(&mut store, 1, D, D, 0, 0, 0, 0).unwrap_err();
    assert!(matches!(err, EngineError::NoStagedIntent));
    // a liquidation settlement additionally needs a recorded liquidator
    let err = liquidate_reply(&mut store, 1, D, D).unwrap_err();
    assert!(matches!(err, EngineError::Unauthorized));
}

#[test]
fn settlement_with_zero_output_is_rejected() {
    let mut store = EngineStorage::new(test_config());
    let quote = AmmQuote { output_amount: 0, output_twap: 0, oracle_price: 0 };
    open_position(
        &mut store,
        1,
        ALICE,
        VAMM,
        Side::Buy,
        25 * D,
        10 * D,
        0,
        &MarketStatus { registered: true, open: true },
        &quote,
        &Asset { info: AssetKind::Token { contract: 7 }, amount: 0 },
    )
    .unwrap();
    let err = increase_position_reply(&mut store, 1, 250 * D, 0, 0, 0, 0, 0).unwrap_err();
    assert!(matches!(err, EngineError::InvalidSettlement));
    // the store is untouched by a failed settlement: the intent is still
    // staged until the host rolls back
    assert!(store.read_tmp_swap().is_ok());
}

#[test]
fn open_rejects_out_of_range_notional() {
    let mut store = EngineStorage::new(test_config());
    let quote = AmmQuote { output_amount: 0, output_twap: 0, oracle_price: 0 };
    // margin * leverage / scale exceeds the engine's fixed-point range
    let err = open_position(
        &mut store,
        1,
        ALICE,
        VAMM,
        Side::Buy,
        MAX_AMOUNT,
        10 * D,
        0,
        &MarketStatus { registered: true, open: true },
        &quote,
        &Asset { info: AssetKind::Token { contract: 7 }, amount: 0 },
    )
    .unwrap_err();
    assert!(matches!(err, EngineError::AmountOutOfRange));
}

#[test]
fn funding_settlement_enters_restriction_mode() {
    let mut store = EngineStorage::new(test_config());
    pay_funding_reply(&mut store, VAMM, Integer { negative: true, value: D / 100 }, 7).unwrap();
    assert_eq!(store.read_last_restriction_block(VAMM), 7);
    assert_eq!(
        store.query_cumulative_premium_fraction(VAMM),
        Integer { negative: true, value: D / 100 }
    );

    // a premium fraction outside the fixed-point range fails loudly and
    // changes nothing
    let err = pay_funding_reply(
        &mut store,
        VAMM,
        Integer { negative: false, value: MAX_AMOUNT + 1 },
        8,
    )
    .unwrap_err();
    assert!(matches!(err, EngineError::AmountOutOfRange));
    assert_eq!(store.read_last_restriction_block(VAMM), 7);
}

#[test]
fn vamm_map_round_trips() {
    let mut store = EngineStorage::new(test_config());
    pay_funding_reply(&mut store, VAMM, Integer { negative: false, value: 3 }, 1).unwrap();
    pay_funding_reply(&mut store, VAMM, Integer { negative: false, value: 4 }, 2).unwrap();

    let map = store.read_vamm_map(VAMM);
    assert_eq!(map.last_restriction_block, 2);
    assert_eq!(map.cumulative_premium_fractions.len(), 2);
    assert_eq!(map.cumulative_premium_fractions[0], Integer { negative: false, value: 3 });
    assert_eq!(map.cumulative_premium_fractions[1], Integer { negative: false, value: 7 });

    store.store_vamm_map(99, map);
    assert_eq!(store.read_last_restriction_block(99), 2);
    assert_eq!(
        store.query_cumulative_premium_fraction(99),
        Integer { negative: false, value: 7 }
    );
}

#[test]
fn update_pauser_hands_over_the_role() {
    let mut store = EngineStorage::new(test_config());
    let err = store.update_pauser(ALICE, ALICE).unwrap_err();
    assert!(matches!(err, EngineError::Unauthorized));
    store.update_pauser(OWNER, ALICE).unwrap();
    // the old pauser lost the role
    assert!(matches!(store.set_pause(OWNER, true).unwrap_err(), EngineError::Unauthorized));
    store.set_pause(ALICE, true).unwrap();
    assert!(store.read_state().pause);
}

#[test]
fn oracle_margin_ratio_uses_the_underlying_price() {
    let mut store = EngineStorage::new(test_config());
    // a long of 20 base, basis 250, margin 25, priced by the oracle at
    // 10 per base unit: notional 200, loss 50, ratio (25-50)*1/200
    let position = margined_engine::types::Position {
        vamm: VAMM,
        trader: ALICE,
        direction: margined_engine::types::Direction::AddToAmm,
        size: Integer { negative: false, value: 20 * D },
        margin: 25 * D,
        notional: 250 * D,
        last_updated_premium_fraction: Integer { negative: false, value: 0 },
        block_number: 1,
    };
    store.store_position(&position);

    let quote = AmmQuote { output_amount: 0, output_twap: 0, oracle_price: 10 * D };
    let ratio =
        get_margin_ratio_calc_option(&store, VAMM, ALICE, PnlCalcOption::Oracle, &quote).unwrap();
    // remaining margin clamps at zero and the shortfall is bad debt:
    // (0 - 25) * 1 / 200 = -0.125
    assert_eq!(ratio, Integer { negative: true, value: 125_000_000 });
}
