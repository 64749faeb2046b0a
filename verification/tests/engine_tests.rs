//! End-to-end tests of the two-phase trade protocol, driven against a
//! small constant-product price curve simulated by the host side of the
//! tests.

use margined_engine::error::EngineError;
use margined_engine::guards::MarketStatus;
use margined_engine::handle::{
    close_position, deposit_margin, liquidate, open_position, pay_funding, query_free_collateral,
    withdraw_margin, AmmRequest, SwapRequest, TradeKind,
};
use margined_engine::integer::Integer;
use margined_engine::margin::{calc_remain_margin_with_funding_payment, AmmQuote};
use margined_engine::reply::{
    close_position_reply, decrease_position_reply, increase_position_reply, liquidate_reply,
    partial_liquidation_reply, pay_funding_reply, reverse_position_reply, rollback_swap,
};
use margined_engine::storage::EngineStorage;
use margined_engine::types::{Asset, AssetKind, Config, Position, Side};

const D: u128 = 1_000_000_000;
const VAMM: u64 = 11;
const ALICE: u64 = 21;
const BOB: u64 = 22;
const CAROL: u64 = 23;
const OWNER: u64 = 1;

/// A constant-product price curve, playing the AMM collaborator.
struct Amm {
    quote: u128,
    base: u128,
    k: u128,
}

impl Amm {
    fn new(quote: u128, base: u128) -> Amm {
        Amm { quote, base, k: quote * base }
    }

    /// Quote value of closing `size` base units held in `long` direction.
    fn output_amount(&self, long: bool, size: u128) -> u128 {
        if long {
            self.quote - self.k / (self.base + size)
        } else {
            self.k / (self.base - size) - self.quote
        }
    }

    /// Executes a swap request, returning (input, output) in the
    /// engine's settlement convention.
    fn execute(&mut self, req: &SwapRequest) -> (u128, u128) {
        match req.request {
            AmmRequest::SwapInput { direction, quote_asset_amount, .. } => {
                let add = matches!(direction, margined_engine::types::Direction::AddToAmm);
                if add {
                    let base_out = self.base - self.k / (self.quote + quote_asset_amount);
                    self.quote += quote_asset_amount;
                    self.base -= base_out;
                    (quote_asset_amount, base_out)
                } else {
                    let base_in = self.k / (self.quote - quote_asset_amount) - self.base;
                    self.quote -= quote_asset_amount;
                    self.base += base_in;
                    (quote_asset_amount, base_in)
                }
            }
            AmmRequest::SwapOutput { direction, base_asset_amount, .. } => {
                let add = matches!(direction, margined_engine::types::Direction::AddToAmm);
                if add {
                    let quote_out = self.quote - self.k / (self.base + base_asset_amount);
                    self.base += base_asset_amount;
                    self.quote -= quote_out;
                    (base_asset_amount, quote_out)
                } else {
                    let quote_in = self.k / (self.base - base_asset_amount) - self.quote;
                    self.base -= base_asset_amount;
                    self.quote += quote_in;
                    (base_asset_amount, quote_in)
                }
            }
        }
    }

    fn quote_for(&self, store: &EngineStorage, vamm: u64, trader: u64) -> AmmQuote {
        let position = store.read_position(vamm, trader);
        let long = !position.size.negative;
        let notional = if position.size.value == 0 {
            0
        } else {
            self.output_amount(long, position.size.value)
        };
        AmmQuote { output_amount: notional, output_twap: notional, oracle_price: 0 }
    }
}

fn test_config() -> Config {
    Config {
        owner: OWNER,
        pauser: OWNER,
        insurance_fund: Some(5),
        fee_pool: 6,
        eligible_collateral: AssetKind::Token { contract: 7 },
        decimals: D,
        initial_margin_ratio: D / 10,
        maintenance_margin_ratio: D / 10,
        partial_liquidation_ratio: D / 4,
        liquidation_fee: 25 * D / 1000,
    }
}

fn open_market() -> MarketStatus {
    MarketStatus { registered: true, open: true }
}

fn token_sent() -> Asset {
    Asset { info: AssetKind::Token { contract: 7 }, amount: 0 }
}

/// Runs a full open (phase one, AMM execution, settlement) and returns
/// the settlement receipt.
fn run_open(
    store: &mut EngineStorage,
    amm: &mut Amm,
    height: u64,
    trader: u64,
    side: Side,
    margin: u128,
    leverage: u128,
) -> margined_engine::reply::SettlementReceipt {
    let quote = amm.quote_for(store, VAMM, trader);
    let req = open_position(
        store,
        height,
        trader,
        VAMM,
        side,
        margin,
        leverage,
        0,
        &open_market(),
        &quote,
        &token_sent(),
    )
    .unwrap();
    let (input, output) = amm.execute(&req);
    match req.kind {
        TradeKind::Increase => {
            increase_position_reply(store, height, input, output, 0, 0, 0, 0).unwrap()
        }
        TradeKind::Decrease => {
            decrease_position_reply(store, height, input, output, 0, 0).unwrap()
        }
        TradeKind::Reverse => {
            let (receipt, chained) =
                reverse_position_reply(store, height, input, output, 0, 0).unwrap();
            if let Some(next) = chained {
                let (i2, o2) = amm.execute(&next);
                increase_position_reply(store, height, i2, o2, 0, 0, 0, 0).unwrap();
            }
            receipt
        }
        _ => panic!("unexpected trade kind"),
    }
}

#[test]
fn open_long_settles_expected_position() {
    let mut store = EngineStorage::new(test_config());
    let mut amm = Amm::new(1000 * D, 100 * D);

    run_open(&mut store, &mut amm, 1, ALICE, Side::Buy, 25 * D, 10 * D);

    let position = store.read_position(VAMM, ALICE);
    assert_eq!(position.size.value, 20 * D);
    assert!(!position.size.negative);
    assert_eq!(position.margin, 25 * D);
    assert_eq!(position.notional, 250 * D);
    assert_eq!(store.read_state().open_interest_notional, 250 * D);
    // the staged intent was consumed
    assert!(store.read_tmp_swap().is_err());
}

#[test]
fn partial_liquidation_conserves_value() {
    // Trader A opens long with margin 25 and leverage 10 against
    // reserves (1000 quote, 100 base): size +20 base, notional 250.
    // Trader B shorts margin 45.18 at 1x, pushing the price down; A's
    // margin ratio falls below maintenance; a liquidator partially
    // closes 25% of A's position for a fee.
    let mut store = EngineStorage::new(test_config());
    let mut amm = Amm::new(1000 * D, 100 * D);

    run_open(&mut store, &mut amm, 1, ALICE, Side::Buy, 25 * D, 10 * D);
    run_open(&mut store, &mut amm, 2, BOB, Side::Sell, 45_180_000_000, D);

    // A's margin ratio is now below maintenance (0.1)
    let quote = amm.quote_for(&store, VAMM, ALICE);
    assert_eq!(quote.output_amount, 233_945_744_180);
    let ratio =
        margined_engine::margin::query_margin_ratio(&store, VAMM, ALICE, &quote).unwrap();
    assert!(!ratio.negative);
    assert_eq!(ratio.value, 38_238_542);
    assert!(ratio.value < store.read_config().maintenance_margin_ratio);

    // the ratio still exceeds the liquidation fee ratio, so the
    // liquidation is partial
    let partial_notional = amm.output_amount(true, 5 * D);
    let req = liquidate(
        &mut store,
        CAROL,
        VAMM,
        ALICE,
        0,
        &open_market(),
        false,
        partial_notional,
        &quote,
    )
    .unwrap();
    assert!(matches!(req.kind, TradeKind::PartialLiquidate));

    let (input, output) = amm.execute(&req);
    assert_eq!(input, 5 * D);
    assert_eq!(output, 68_455_720_558);

    let receipt = partial_liquidation_reply(&mut store, 3, input, output).unwrap();

    let position = store.read_position(VAMM, ALICE);
    assert_eq!(position.size.value, 15 * D);
    assert_eq!(position.margin, 19_275_043_032);
    assert_eq!(position.notional, 177_530_715_487);

    // value conservation: margin before equals margin after, plus the
    // liquidation fee, plus the realized loss
    let realized_loss: u128 = 4_013_563_955;
    assert_eq!(receipt.fee_to_liquidator, 1_711_393_013);
    assert_eq!(25 * D, position.margin + receipt.fee_to_liquidator + realized_loss);
    assert_eq!(receipt.bad_debt, 0);

    // the market entered restriction mode: a second action on the same
    // position in the same block is rejected
    let err = close_position(&mut store, 3, ALICE, VAMM, 0, false, 0, &quote).unwrap_err();
    assert!(matches!(err, EngineError::RestrictionViolation));
    // no intent remains staged
    assert!(store.read_tmp_swap().is_err());
}

#[test]
fn full_liquidation_realizes_bad_debt() {
    let mut store = EngineStorage::new(test_config());
    let mut amm = Amm::new(1000 * D, 100 * D);

    run_open(&mut store, &mut amm, 1, ALICE, Side::Buy, 25 * D, 10 * D);
    run_open(&mut store, &mut amm, 2, BOB, Side::Sell, 200 * D, 5 * D);

    let quote = amm.quote_for(&store, VAMM, ALICE);
    assert_eq!(quote.output_amount, 11_904_761_905);

    // deeply under water: the ratio is negative, below the liquidation
    // fee ratio, so the liquidation is full
    let req =
        liquidate(&mut store, CAROL, VAMM, ALICE, 0, &open_market(), false, 0, &quote).unwrap();
    assert!(matches!(req.kind, TradeKind::Liquidate));

    let (input, output) = amm.execute(&req);
    let receipt = liquidate_reply(&mut store, 3, input, output).unwrap();

    // all margin gone, the liquidator fee adds to the uncovered loss,
    // and the insurance reserve covers everything
    assert_eq!(receipt.fee_to_liquidator, 297_619_047);
    assert_eq!(receipt.bad_debt, 213_392_857_142);
    assert_eq!(receipt.withdraw_from_insurance, 213_392_857_142);
    assert_eq!(receipt.margin_to_vault, Integer { negative: false, value: 0 });

    let position = store.read_position(VAMM, ALICE);
    assert_eq!(position.size.value, 0);
    assert_eq!(position.margin, 0);
    assert_eq!(position.notional, 0);
}

#[test]
fn close_position_pays_out_margin() {
    let mut store = EngineStorage::new(test_config());
    let mut amm = Amm::new(1000 * D, 100 * D);

    run_open(&mut store, &mut amm, 1, ALICE, Side::Buy, 60 * D, 10 * D);
    let position = store.read_position(VAMM, ALICE);
    assert_eq!(position.size.value, 37_500_000_000);

    let quote = amm.quote_for(&store, VAMM, ALICE);
    assert_eq!(quote.output_amount, 600 * D);
    let req = close_position(&mut store, 2, ALICE, VAMM, 0, false, 0, &quote).unwrap();
    assert!(matches!(req.kind, TradeKind::Close));
    let (input, output) = amm.execute(&req);
    let receipt = close_position_reply(&mut store, 2, input, output, 0, 0).unwrap();

    // unchanged price: the full margin comes back, no profit, no loss
    assert_eq!(receipt.margin_to_vault, Integer { negative: true, value: 60 * D });
    assert_eq!(receipt.bad_debt, 0);
    assert_eq!(store.read_state().open_interest_notional, 0);
}

#[test]
fn closed_position_reads_as_canonical_zero_record() {
    let mut store = EngineStorage::new(test_config());
    let mut amm = Amm::new(1000 * D, 100 * D);

    // a never-traded position reads as the canonical empty record
    let fresh = store.read_position(VAMM, ALICE);
    assert_eq!(fresh, Position::empty());
    // and the read is stable
    assert_eq!(store.read_position(VAMM, ALICE), Position::empty());

    run_open(&mut store, &mut amm, 1, ALICE, Side::Buy, 60 * D, 10 * D);
    let quote = amm.quote_for(&store, VAMM, ALICE);
    let req = close_position(&mut store, 2, ALICE, VAMM, 0, false, 0, &quote).unwrap();
    let (input, output) = amm.execute(&req);
    close_position_reply(&mut store, 2, input, output, 0, 0).unwrap();

    // a fully closed position reads as a stable zero record, not an
    // error: exposure, collateral and checkpoint all zero
    let closed = store.read_position(VAMM, ALICE);
    assert_eq!(closed.size.value, 0);
    assert_eq!(closed.margin, 0);
    assert_eq!(closed.notional, 0);
    assert_eq!(closed.last_updated_premium_fraction, Integer { negative: false, value: 0 });
    assert_eq!(store.read_position(VAMM, ALICE), closed);
}

#[test]
fn reverse_chains_a_second_trade() {
    let mut store = EngineStorage::new(test_config());
    let mut amm = Amm::new(1000 * D, 100 * D);

    run_open(&mut store, &mut amm, 1, ALICE, Side::Buy, 25 * D, 10 * D);
    // sell twice the exposure: the long is unwound, and a chained swap
    // opens the residual short
    run_open(&mut store, &mut amm, 2, ALICE, Side::Sell, 50 * D, 10 * D);

    let position = store.read_position(VAMM, ALICE);
    assert!(position.size.negative);
    assert_eq!(position.size.value, 33_333_333_333);
    assert_eq!(position.notional, 250 * D);
    assert_eq!(position.margin, 25 * D);
    assert!(store.read_tmp_swap().is_err());
}

#[test]
fn reduce_keeps_direction_and_prorates_basis() {
    let mut store = EngineStorage::new(test_config());
    let mut amm = Amm::new(1000 * D, 100 * D);

    run_open(&mut store, &mut amm, 1, ALICE, Side::Buy, 25 * D, 10 * D);
    // sell less than the exposure is worth: a partial reduce
    run_open(&mut store, &mut amm, 2, ALICE, Side::Sell, 10 * D, 10 * D);

    let position = store.read_position(VAMM, ALICE);
    assert!(!position.size.negative);
    assert_eq!(position.size.value, 20 * D - 6_956_521_739);
    assert_eq!(position.notional, 150 * D);
    assert_eq!(position.margin, 25 * D);
}

#[test]
fn funding_settlement_collapses_rounds() {
    let mut store = EngineStorage::new(test_config());
    let mut amm = Amm::new(1000 * D, 100 * D);

    run_open(&mut store, &mut amm, 1, ALICE, Side::Buy, 25 * D, 10 * D);

    // three settled rounds, each a premium fraction of +0.01
    let premium = Integer { negative: false, value: D / 100 };
    pay_funding_reply(&mut store, VAMM, premium, 2).unwrap();
    pay_funding_reply(&mut store, VAMM, premium, 3).unwrap();
    pay_funding_reply(&mut store, VAMM, premium, 4).unwrap();
    assert_eq!(
        store.query_cumulative_premium_fraction(VAMM),
        Integer { negative: false, value: 3 * D / 100 }
    );

    // one-step settlement from the checkpoint equals replaying the
    // three rounds individually: 3 * (0.01 * 20) = 0.6
    let position = store.read_position(VAMM, ALICE);
    let remain =
        calc_remain_margin_with_funding_payment(&store, position, Integer { negative: false, value: 0 });
    assert_eq!(remain.funding_payment, Integer { negative: false, value: 600_000_000 });
    assert_eq!(remain.margin, 25 * D - 600_000_000);

    let per_round: u128 = (D / 100) * (20 * D) / D;
    assert_eq!(remain.funding_payment.value, 3 * per_round);
}

#[test]
fn pay_funding_requires_registered_market() {
    let store = EngineStorage::new(test_config());
    let err = pay_funding(&store, VAMM, &MarketStatus { registered: false, open: true })
        .unwrap_err();
    assert!(matches!(err, EngineError::VammNotRegistered));
    let ok = pay_funding(&store, VAMM, &open_market()).unwrap();
    assert_eq!(ok.vamm, VAMM);
}

#[test]
fn deposit_and_withdraw_margin() {
    let mut store = EngineStorage::new(test_config());
    let mut amm = Amm::new(1000 * D, 100 * D);

    // depositing into a never-traded position is rejected
    let err = deposit_margin(&mut store, ALICE, VAMM, 10 * D).unwrap_err();
    assert!(matches!(err, EngineError::PositionNotFound));

    run_open(&mut store, &mut amm, 1, ALICE, Side::Buy, 25 * D, 10 * D);
    deposit_margin(&mut store, ALICE, VAMM, 10 * D).unwrap();
    assert_eq!(store.read_position(VAMM, ALICE).margin, 35 * D);

    // withdraw the deposit again: free collateral covers it
    let quote = amm.quote_for(&store, VAMM, ALICE);
    withdraw_margin(&mut store, ALICE, VAMM, 10 * D, &open_market(), &quote).unwrap();
    assert_eq!(store.read_position(VAMM, ALICE).margin, 25 * D);

    // withdrawing everything is stopped by the free-collateral check:
    // the notional still requires initial margin
    let err =
        withdraw_margin(&mut store, ALICE, VAMM, 25 * D, &open_market(), &quote).unwrap_err();
    assert!(matches!(err, EngineError::InsufficientCollateral));
}

#[test]
fn free_collateral_subtracts_margin_requirement() {
    let mut store = EngineStorage::new(test_config());
    let mut amm = Amm::new(1000 * D, 100 * D);

    run_open(&mut store, &mut amm, 1, ALICE, Side::Buy, 25 * D, 10 * D);
    let quote = amm.quote_for(&store, VAMM, ALICE);
    // no price move, no funding: free = margin - notional * 0.1 = 0
    let free = query_free_collateral(&store, VAMM, ALICE, &quote);
    assert_eq!(free, Integer { negative: false, value: 0 });
}

#[test]
fn open_position_validation_ladder() {
    let mut store = EngineStorage::new(test_config());
    let quote = AmmQuote { output_amount: 0, output_twap: 0, oracle_price: 0 };

    // paused engine
    store.set_pause(OWNER, true).unwrap();
    let err = open_position(
        &mut store, 1, ALICE, VAMM, Side::Buy, D, 10 * D, 0, &open_market(), &quote,
        &token_sent(),
    )
    .unwrap_err();
    assert!(matches!(err, EngineError::Paused));
    store.set_pause(OWNER, false).unwrap();

    // unregistered market
    let err = open_position(
        &mut store, 1, ALICE, VAMM, Side::Buy, D, 10 * D, 0,
        &MarketStatus { registered: false, open: true }, &quote, &token_sent(),
    )
    .unwrap_err();
    assert!(matches!(err, EngineError::VammNotRegistered));

    // closed market
    let err = open_position(
        &mut store, 1, ALICE, VAMM, Side::Buy, D, 10 * D, 0,
        &MarketStatus { registered: true, open: false }, &quote, &token_sent(),
    )
    .unwrap_err();
    assert!(matches!(err, EngineError::VammNotOpen));

    // zero margin, zero leverage
    let err = open_position(
        &mut store, 1, ALICE, VAMM, Side::Buy, 0, 10 * D, 0, &open_market(), &quote,
        &token_sent(),
    )
    .unwrap_err();
    assert!(matches!(err, EngineError::ZeroInput));
    let err = open_position(
        &mut store, 1, ALICE, VAMM, Side::Buy, D, 0, 0, &open_market(), &quote, &token_sent(),
    )
    .unwrap_err();
    assert!(matches!(err, EngineError::ZeroInput));

    // leverage below one
    let err = open_position(
        &mut store, 1, ALICE, VAMM, Side::Buy, D, D / 2, 0, &open_market(), &quote,
        &token_sent(),
    )
    .unwrap_err();
    assert!(matches!(err, EngineError::LeverageTooSmall));

    // leverage so high the fresh trade cannot meet the initial margin
    // ratio: scale^2 / leverage < initial requirement
    let err = open_position(
        &mut store, 1, ALICE, VAMM, Side::Buy, D, 11 * D, 0, &open_market(), &quote,
        &token_sent(),
    )
    .unwrap_err();
    assert!(matches!(err, EngineError::Undercollateralized));
    // while one notch lower passes validation
    assert!(open_position(
        &mut store, 1, ALICE, VAMM, Side::Buy, D, 10 * D, 0, &open_market(), &quote,
        &token_sent(),
    )
    .is_ok());
}

#[test]
fn rollback_discards_staged_intent() {
    let mut store = EngineStorage::new(test_config());
    let quote = AmmQuote { output_amount: 0, output_twap: 0, oracle_price: 0 };
    open_position(
        &mut store, 1, ALICE, VAMM, Side::Buy, 25 * D, 10 * D, 0, &open_market(), &quote,
        &token_sent(),
    )
    .unwrap();
    assert!(store.read_tmp_swap().is_ok());

    // the collaborator round-trip failed: the whole operation unwinds
    rollback_swap(&mut store);
    assert!(store.read_tmp_swap().is_err());
    assert!(store.read_sent_funds().is_err());
    assert_eq!(store.read_position(VAMM, ALICE), Position::empty());
}

#[test]
fn open_interest_cap_blocks_only_unwhitelisted_increases() {
    let mut config = test_config();
    config.decimals = D;
    let mut store = EngineStorage::new(config);
    let mut amm = Amm::new(1000 * D, 100 * D);

    // stage an increase for ALICE and settle it against a cap lower
    // than the notional: blocked
    let quote = amm.quote_for(&store, VAMM, ALICE);
    let req = open_position(
        &mut store, 1, ALICE, VAMM, Side::Buy, 25 * D, 10 * D, 0, &open_market(), &quote,
        &token_sent(),
    )
    .unwrap();
    let (input, output) = amm.execute(&req);
    let err =
        increase_position_reply(&mut store, 1, input, output, 0, 0, 0, 100 * D).unwrap_err();
    assert!(matches!(err, EngineError::OpenInterestCapExceeded));
    // the failed settlement left no state behind; discard the intent
    rollback_swap(&mut store);
    assert_eq!(store.read_state().open_interest_notional, 0);

    // whitelisted traders may exceed the cap on the increasing side
    store.add_whitelist(OWNER, ALICE).unwrap();
    let mut amm = Amm::new(1000 * D, 100 * D);
    let req = open_position(
        &mut store, 1, ALICE, VAMM, Side::Buy, 25 * D, 10 * D, 0, &open_market(), &quote,
        &token_sent(),
    )
    .unwrap();
    let (input, output) = amm.execute(&req);
    increase_position_reply(&mut store, 1, input, output, 0, 0, 0, 100 * D).unwrap();
    assert_eq!(store.read_state().open_interest_notional, 250 * D);

    // reducing exposure is never blocked, whatever the cap: the close
    // settles even with the tightest cap configured
    store.remove_whitelist(OWNER, ALICE).unwrap();
    let quote = amm.quote_for(&store, VAMM, ALICE);
    let req = close_position(&mut store, 2, ALICE, VAMM, 0, false, 0, &quote).unwrap();
    let (input, output) = amm.execute(&req);
    close_position_reply(&mut store, 2, input, output, 0, 0).unwrap();
    assert_eq!(store.read_state().open_interest_notional, 0);
}

#[test]
fn base_asset_cap_blocks_only_unwhitelisted_increases() {
    let mut store = EngineStorage::new(test_config());
    let mut amm = Amm::new(1000 * D, 100 * D);

    let quote = amm.quote_for(&store, VAMM, ALICE);
    let req = open_position(
        &mut store, 1, ALICE, VAMM, Side::Buy, 25 * D, 10 * D, 0, &open_market(), &quote,
        &token_sent(),
    )
    .unwrap();
    let (input, output) = amm.execute(&req);
    // the position would hold 20 base against a cap of 10: blocked
    let err =
        increase_position_reply(&mut store, 1, input, output, 0, 0, 10 * D, 0).unwrap_err();
    assert!(matches!(err, EngineError::BaseAssetHoldingCapExceeded));
    rollback_swap(&mut store);

    // whitelisting lifts the cap
    store.add_whitelist(OWNER, ALICE).unwrap();
    let mut amm = Amm::new(1000 * D, 100 * D);
    let req = open_position(
        &mut store, 1, ALICE, VAMM, Side::Buy, 25 * D, 10 * D, 0, &open_market(), &quote,
        &token_sent(),
    )
    .unwrap();
    let (input, output) = amm.execute(&req);
    increase_position_reply(&mut store, 1, input, output, 0, 0, 10 * D, 0).unwrap();
    assert_eq!(store.read_position(VAMM, ALICE).size.value, 20 * D);
}

#[test]
fn fees_are_charged_once_per_trade() {
    let mut store = EngineStorage::new(test_config());
    let mut amm = Amm::new(1000 * D, 100 * D);

    let quote = amm.quote_for(&store, VAMM, ALICE);
    let req = open_position(
        &mut store, 1, ALICE, VAMM, Side::Buy, 25 * D, 10 * D, 0, &open_market(), &quote,
        &token_sent(),
    )
    .unwrap();
    let (input, output) = amm.execute(&req);
    // toll 0.1%, spread 0.05% on the 250 notional
    let receipt =
        increase_position_reply(&mut store, 1, input, output, D / 1000, D / 2000, 0, 0).unwrap();
    assert_eq!(receipt.toll_to_fee_pool, 250 * D / 1000);
    assert_eq!(receipt.spread_to_insurance, 250 * D / 2000);
    assert_eq!(receipt.margin_to_vault, Integer { negative: false, value: 25 * D });
}

#[test]
fn native_collateral_requires_exact_funds() {
    let mut config = test_config();
    config.eligible_collateral = AssetKind::NativeToken { denom: 9 };
    let mut store = EngineStorage::new(config);
    let mut amm = Amm::new(1000 * D, 100 * D);

    let quote = amm.quote_for(&store, VAMM, ALICE);
    let sent = Asset { info: AssetKind::NativeToken { denom: 9 }, amount: 10 * D };
    let req = open_position(
        &mut store, 1, ALICE, VAMM, Side::Buy, 25 * D, 10 * D, 0, &open_market(), &quote, &sent,
    )
    .unwrap();
    let (input, output) = amm.execute(&req);
    // 10 sent, 25 required
    let err = increase_position_reply(&mut store, 1, input, output, 0, 0, 0, 0).unwrap_err();
    assert!(matches!(err, EngineError::SentFundsInsufficient));
    rollback_swap(&mut store);

    let mut amm = Amm::new(1000 * D, 100 * D);
    let sent = Asset { info: AssetKind::NativeToken { denom: 9 }, amount: 25 * D };
    let req = open_position(
        &mut store, 1, ALICE, VAMM, Side::Buy, 25 * D, 10 * D, 0, &open_market(), &quote, &sent,
    )
    .unwrap();
    let (input, output) = amm.execute(&req);
    increase_position_reply(&mut store, 1, input, output, 0, 0, 0, 0).unwrap();
    assert_eq!(store.read_position(VAMM, ALICE).margin, 25 * D);
}

#[test]
fn fluctuation_limit_forces_partial_close() {
    let mut store = EngineStorage::new(test_config());
    let mut amm = Amm::new(1000 * D, 100 * D);

    run_open(&mut store, &mut amm, 1, ALICE, Side::Buy, 25 * D, 10 * D);

    // the market reports that unwinding the whole size would breach its
    // fluctuation limit: only the configured 25% fraction closes
    let quote = amm.quote_for(&store, VAMM, ALICE);
    let partial_close_notional = amm.output_amount(true, 5 * D);
    assert_eq!(partial_close_notional, 73_529_411_765);
    let req = close_position(
        &mut store,
        2,
        ALICE,
        VAMM,
        0,
        true,
        partial_close_notional,
        &quote,
    )
    .unwrap();
    assert!(matches!(req.kind, TradeKind::PartialClose));

    let (input, output) = amm.execute(&req);
    assert_eq!(output, 5 * D);
    decrease_position_reply(&mut store, 2, input, output, 0, 0).unwrap();

    let position = store.read_position(VAMM, ALICE);
    assert_eq!(position.size.value, 15 * D);
    assert_eq!(position.margin, 25 * D);
    assert_eq!(position.notional, 176_470_588_235);
}

#[test]
fn native_reverse_settles_both_legs() {
    let mut config = test_config();
    config.eligible_collateral = AssetKind::NativeToken { denom: 9 };
    let mut store = EngineStorage::new(config);
    let mut amm = Amm::new(1000 * D, 100 * D);

    let sent = Asset { info: AssetKind::NativeToken { denom: 9 }, amount: 25 * D };
    let req = open_position(
        &mut store, 1, ALICE, VAMM, Side::Buy, 25 * D, 10 * D, 0, &open_market(),
        &AmmQuote { output_amount: 0, output_twap: 0, oracle_price: 0 }, &sent,
    )
    .unwrap();
    let (input, output) = amm.execute(&req);
    increase_position_reply(&mut store, 1, input, output, 0, 0, 0, 0).unwrap();

    // reverse to a short of equal margin: the released margin funds the
    // chained leg exactly, so no native funds need to accompany it
    let quote = amm.quote_for(&store, VAMM, ALICE);
    let sent = Asset { info: AssetKind::NativeToken { denom: 9 }, amount: 0 };
    let req = open_position(
        &mut store, 2, ALICE, VAMM, Side::Sell, 50 * D, 10 * D, 0, &open_market(), &quote,
        &sent,
    )
    .unwrap();
    assert!(matches!(req.kind, TradeKind::Reverse));
    let (input, output) = amm.execute(&req);
    let (receipt, chained) = reverse_position_reply(&mut store, 2, input, output, 0, 0).unwrap();
    assert_eq!(receipt.margin_to_vault, Integer { negative: false, value: 0 });
    let next = chained.unwrap();
    let (i2, o2) = amm.execute(&next);
    increase_position_reply(&mut store, 2, i2, o2, 0, 0, 0, 0).unwrap();

    let position = store.read_position(VAMM, ALICE);
    assert!(position.size.negative);
    assert_eq!(position.size.value, 33_333_333_333);
    assert_eq!(position.margin, 25 * D);
}

#[test]
fn close_requires_live_position() {
    let mut store = EngineStorage::new(test_config());
    let quote = AmmQuote { output_amount: 0, output_twap: 0, oracle_price: 0 };
    let err = close_position(&mut store, 1, ALICE, VAMM, 0, false, 0, &quote).unwrap_err();
    assert!(matches!(err, EngineError::PositionZero));
}

#[test]
fn liquidate_rejects_healthy_position() {
    let mut store = EngineStorage::new(test_config());
    let mut amm = Amm::new(1000 * D, 100 * D);
    run_open(&mut store, &mut amm, 1, ALICE, Side::Buy, 25 * D, 10 * D);

    // another trader pushes the price up: A is comfortably solvent
    run_open(&mut store, &mut amm, 2, BOB, Side::Buy, 100 * D, 10 * D);

    let quote = amm.quote_for(&store, VAMM, ALICE);
    let err =
        liquidate(&mut store, CAROL, VAMM, ALICE, 0, &open_market(), false, 0, &quote)
            .unwrap_err();
    assert!(matches!(err, EngineError::Overcollateralized));
}

#[test]
fn withdraw_rejects_when_funding_ate_the_margin() {
    let mut store = EngineStorage::new(test_config());
    let mut amm = Amm::new(1000 * D, 100 * D);
    run_open(&mut store, &mut amm, 1, ALICE, Side::Buy, 25 * D, 10 * D);

    // an enormous funding round: the long owes 2 per base unit
    let premium = Integer { negative: false, value: 2 * D };
    pay_funding_reply(&mut store, VAMM, premium, 2).unwrap();

    // 20 base * 2 = 40 owed, more than the margin: bad debt blocks any
    // withdrawal
    let quote = amm.quote_for(&store, VAMM, ALICE);
    let err =
        withdraw_margin(&mut store, ALICE, VAMM, D, &open_market(), &quote).unwrap_err();
    assert!(matches!(err, EngineError::InsufficientMargin));
}
