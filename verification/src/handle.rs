//! Trade orchestrator: phase one of every position-changing action.
//!
//! Each handler validates its inputs against the stored state, computes
//! the trade to execute, stages the pending swap intent, and returns the
//! swap request the host must forward to the market's price curve. Nothing
//! about the position itself is persisted here; that happens only in
//! settlement (phase two), once the host reports the confirmed execution.
//!
//! Facts only the collaborators know — whether the market is registered
//! and open, spot quotes, fluctuation and spread flags — arrive as plain
//! arguments, read by the host immediately before the call.

use vstd::prelude::*;

verus! {

use crate::error::EngineError;
use crate::guards::{
    MarketStatus, require_bad_debt, require_non_zero_input, require_not_paused,
    require_not_restriction_mode, require_position_not_zero, require_vamm,
};
use crate::integer::{Integer, MAX_AMOUNT};
use crate::margin::{
    AmmQuote, MAX_DELTA, calc_remain_margin_with_funding_payment,
    get_position_notional_unrealized_pnl, spec_bad_debt, spec_pnl, spec_ratio_of_leverage,
    spec_remain_margin,
};
use crate::storage::EngineStorage;
use crate::types::{
    Asset, Direction, PnlCalcOption, Position, Side, TmpSwapInfo, direction_to_side,
    position_to_side, side_to_direction, validate_margin_ratios, validate_ratio,
};

/// The seven trade kinds a settlement can be asked to fold in; the tag
/// dispatches the staged intent to the right settlement handler.
#[derive(Clone, Copy, Debug, PartialEq, Eq, Structural)]
pub enum TradeKind {
    Increase,
    Decrease,
    Reverse,
    Close,
    PartialClose,
    Liquidate,
    PartialLiquidate,
}

/// The execution the host must request from the market's price curve.
#[derive(Clone, Copy, Debug, PartialEq, Eq, Structural)]
pub enum AmmRequest {
    /// Spend a fixed quote notional; the realized base is bounded below
    /// by the caller's limit.
    SwapInput {
        direction: Direction,
        quote_asset_amount: u128,
        base_asset_limit: u128,
        can_go_over_fluctuation: bool,
    },
    /// Unwind a fixed base amount; the realized quote is bounded by the
    /// caller's limit.
    SwapOutput { direction: Direction, base_asset_amount: u128, quote_asset_limit: u128 },
}

/// A staged swap: which market, what to execute, and which settlement
/// handler the confirmed result belongs to.
#[derive(Clone, Copy, Debug, PartialEq, Eq, Structural)]
pub struct SwapRequest {
    pub vamm: u64,
    pub request: AmmRequest,
    pub kind: TradeKind,
}

/// A funding-settlement request: the host asks the market to settle one
/// funding round and reports the premium fraction back.
#[derive(Clone, Copy, Debug, PartialEq, Eq, Structural)]
pub struct FundingRequest {
    pub vamm: u64,
}

pub open spec fn spec_swap_input(
    vamm: u64,
    side: Side,
    open_notional: u128,
    base_asset_limit: u128,
    can_go_over_fluctuation: bool,
    kind: TradeKind,
) -> SwapRequest {
    SwapRequest {
        vamm,
        request: AmmRequest::SwapInput {
            direction: if side == Side::Buy {
                Direction::AddToAmm
            } else {
                Direction::RemoveFromAmm
            },
            quote_asset_amount: open_notional,
            base_asset_limit,
            can_go_over_fluctuation,
        },
        kind,
    }
}

pub open spec fn spec_swap_output(
    vamm: u64,
    side: Side,
    base_asset_amount: u128,
    quote_asset_limit: u128,
    kind: TradeKind,
) -> SwapRequest {
    SwapRequest {
        vamm,
        request: AmmRequest::SwapOutput {
            direction: if side == Side::Buy {
                Direction::AddToAmm
            } else {
                Direction::RemoveFromAmm
            },
            base_asset_amount,
            quote_asset_limit,
        },
        kind,
    }
}

fn swap_input(
    vamm: u64,
    side: &Side,
    open_notional: u128,
    base_asset_limit: u128,
    can_go_over_fluctuation: bool,
    kind: TradeKind,
) -> (r: SwapRequest)
    ensures
        r == spec_swap_input(
            vamm,
            *side,
            open_notional,
            base_asset_limit,
            can_go_over_fluctuation,
            kind,
        ),
{
    let direction = side_to_direction(side);
    SwapRequest {
        vamm,
        request: AmmRequest::SwapInput {
            direction,
            quote_asset_amount: open_notional,
            base_asset_limit,
            can_go_over_fluctuation,
        },
        kind,
    }
}

fn swap_output(
    vamm: u64,
    side: &Side,
    base_asset_amount: u128,
    quote_asset_limit: u128,
    kind: TradeKind,
) -> (r: SwapRequest)
    ensures
        r == spec_swap_output(vamm, *side, base_asset_amount, quote_asset_limit, kind),
{
    let direction = side_to_direction(side);
    SwapRequest {
        vamm,
        request: AmmRequest::SwapOutput { direction, base_asset_amount, quote_asset_limit },
        kind,
    }
}

/// Increase the position through a swap: spend the new notional, bounded
/// by the caller's base-asset limit.
pub fn internal_increase_position(
    vamm: u64,
    side: &Side,
    open_notional: u128,
    base_asset_limit: u128,
) -> (r: SwapRequest)
    ensures
        r == spec_swap_input(vamm, *side, open_notional, base_asset_limit, false, TradeKind::Increase),
{
    swap_input(vamm, side, open_notional, base_asset_limit, false, TradeKind::Increase)
}

/// Reads the position stored for (market, trader), handling the case
/// where there is no previously stored position: a fresh record carries
/// the market, trader, requested direction and current block.
pub open spec fn spec_get_position(
    store: EngineStorage,
    vamm: u64,
    trader: u64,
    side: Side,
    block_height: u64,
) -> Position {
    let p = store.spec_position(vamm, trader);
    if p.vamm == 0 {
        Position {
            vamm,
            trader,
            direction: if side == Side::Buy {
                Direction::AddToAmm
            } else {
                Direction::RemoveFromAmm
            },
            block_number: block_height,
            ..p
        }
    } else {
        p
    }
}

pub fn get_position(
    store: &EngineStorage,
    vamm: u64,
    trader: u64,
    side: &Side,
    block_height: u64,
) -> (r: Position)
    requires
        store.inv(),
        vamm != 0,
        trader != 0,
    ensures
        r == spec_get_position(*store, vamm, trader, *side, block_height),
        r.wf(),
        r.vamm == vamm,
        r.trader == trader,
{
    let mut position = store.read_position(vamm, trader);
    if position.vamm == 0 {
        position.vamm = vamm;
        position.trader = trader;
        position.direction = side_to_direction(side);
        position.block_number = block_height;
    }
    position
}

/// Whether the new trade extends the existing exposure rather than
/// reversing it: the sides agree, or there is no exposure to reverse.
pub open spec fn spec_is_increase(position: Position, side: Side) -> bool {
    ||| position.size.as_int() == 0
    ||| (position.direction == Direction::AddToAmm && side == Side::Buy)
    ||| (position.direction == Direction::RemoveFromAmm && side == Side::Sell)
}

/// The notional a fresh trade opens: `margin * leverage / scale`.
pub open spec fn spec_open_notional(margin_amount: u128, leverage: u128, decimals: u128) -> int {
    (margin_amount * leverage) as int / (decimals as int)
}

/// The validation ladder of `open_position`, in the order the failures
/// surface.
pub open spec fn spec_open_validate(
    store: EngineStorage,
    block_height: u64,
    trader: u64,
    vamm: u64,
    margin_amount: u128,
    leverage: u128,
    status: MarketStatus,
) -> Option<EngineError> {
    if store.state.pause {
        Some(EngineError::Paused)
    } else if store.config.insurance_fund is None {
        Some(EngineError::InsuranceNotRegistered)
    } else if !status.registered {
        Some(EngineError::VammNotRegistered)
    } else if !status.open {
        Some(EngineError::VammNotOpen)
    } else if store.spec_last_restriction_block(vamm) == block_height && store.spec_position(
        vamm,
        trader,
    ).block_number == block_height {
        Some(EngineError::RestrictionViolation)
    } else if margin_amount == 0 || leverage == 0 {
        Some(EngineError::ZeroInput)
    } else if leverage < store.config.decimals {
        Some(EngineError::LeverageTooSmall)
    } else if spec_ratio_of_leverage(store.config.decimals, leverage)
        < store.config.initial_margin_ratio {
        Some(EngineError::Undercollateralized)
    } else if spec_open_notional(margin_amount, leverage, store.config.decimals) > MAX_AMOUNT {
        Some(EngineError::AmountOutOfRange)
    } else {
        None
    }
}

/// The swap request `open_position` issues once validation passed: an
/// increase swaps in the new notional directly; a reversal either reduces
/// by the new notional (when the existing exposure is worth more at spot)
/// or fully unwinds the existing size first.
pub open spec fn spec_open_request(
    store: EngineStorage,
    block_height: u64,
    trader: u64,
    vamm: u64,
    side: Side,
    margin_amount: u128,
    leverage: u128,
    base_asset_limit: u128,
    quote: AmmQuote,
) -> SwapRequest {
    let position = spec_get_position(store, vamm, trader, side, block_height);
    let open_notional = spec_open_notional(margin_amount, leverage, store.config.decimals) as u128;
    let position_notional = if position.size.as_int() == 0 {
        0int
    } else {
        quote.output_amount as int
    };
    if spec_is_increase(position, side) {
        spec_swap_input(vamm, side, open_notional, base_asset_limit, false, TradeKind::Increase)
    } else if position_notional > open_notional {
        spec_swap_input(vamm, side, open_notional, base_asset_limit, false, TradeKind::Decrease)
    } else {
        spec_swap_output(
            vamm,
            if position.direction == Direction::AddToAmm {
                Side::Buy
            } else {
                Side::Sell
            },
            position.size.value,
            0,
            TradeKind::Reverse,
        )
    }
}

/// The intent `open_position` stages: the trade's own terms together with
/// the existing position's spot notional and unrealized profit and loss,
/// frozen for settlement.
pub open spec fn spec_open_staged(
    store: EngineStorage,
    block_height: u64,
    trader: u64,
    vamm: u64,
    side: Side,
    margin_amount: u128,
    leverage: u128,
    quote: AmmQuote,
) -> TmpSwapInfo {
    let position = spec_get_position(store, vamm, trader, side, block_height);
    let open_notional = spec_open_notional(margin_amount, leverage, store.config.decimals) as u128;
    let position_notional = if position.size.as_int() == 0 {
        0u128
    } else {
        quote.output_amount
    };
    let unrealized_pnl = if position.size.as_int() == 0 {
        0int
    } else {
        spec_pnl(position, quote.output_amount as int)
    };
    TmpSwapInfo {
        vamm,
        trader,
        side,
        margin_amount,
        leverage,
        open_notional,
        position_notional,
        unrealized_pnl: crate::integer::int_to_integer(unrealized_pnl),
        margin_to_vault: Integer { negative: false, value: 0 },
        fees_paid: false,
    }
}

/// Opens, increases, reduces or reverses a position.
///
/// Phase one of the two-phase protocol: validates (each failure a
/// distinct error, in a fixed order), computes the trade's notional and
/// direction, stages the pending swap intent and the observed sent funds,
/// and returns the swap request for the host to forward. On any error the
/// store is untouched.
///
/// `status` is the market's registration and open flags; `quote` the spot
/// close notional of the trader's existing position (ignored for a fresh
/// one); `sent` the collateral the host observed arriving with the call.
pub fn open_position(
    store: &mut EngineStorage,
    block_height: u64,
    trader: u64,
    vamm: u64,
    side: Side,
    margin_amount: u128,
    leverage: u128,
    base_asset_limit: u128,
    status: &MarketStatus,
    quote: &AmmQuote,
    sent: &Asset,
) -> (r: Result<SwapRequest, EngineError>)
    requires
        old(store).inv(),
        vamm != 0,
        trader != 0,
        margin_amount <= MAX_AMOUNT,
        leverage <= MAX_AMOUNT,
        quote.wf(),
    ensures
        final(store).inv(),
        match r {
            Err(e) => {
                &&& spec_open_validate(
                    *old(store),
                    block_height,
                    trader,
                    vamm,
                    margin_amount,
                    leverage,
                    *status,
                ) == Some(e)
                &&& *final(store) == *old(store)
            },
            Ok(req) => {
                &&& spec_open_validate(
                    *old(store),
                    block_height,
                    trader,
                    vamm,
                    margin_amount,
                    leverage,
                    *status,
                ) is None
                &&& req == spec_open_request(
                    *old(store),
                    block_height,
                    trader,
                    vamm,
                    side,
                    margin_amount,
                    leverage,
                    base_asset_limit,
                    *quote,
                )
                &&& final(store).tmp_swap == Some(
                    spec_open_staged(
                        *old(store),
                        block_height,
                        trader,
                        vamm,
                        side,
                        margin_amount,
                        leverage,
                        *quote,
                    ),
                )
                &&& final(store).sent_funds == Some(
                    crate::types::SentFunds { asset: *sent, required: 0 },
                )
                &&& final(store).config == old(store).config
                &&& final(store).state == old(store).state
                &&& final(store).positions@ == old(store).positions@
                &&& final(store).vamm_maps@ == old(store).vamm_maps@
                &&& final(store).whitelist@ == old(store).whitelist@
            },
        },
{
    let config = store.read_config();
    let state = store.read_state();

    match require_not_paused(state.pause) {
        Ok(()) => (),
        Err(e) => {
            return Err(e);
        },
    }
    match require_vamm(config.insurance_fund, status) {
        Ok(()) => (),
        Err(e) => {
            return Err(e);
        },
    }
    match require_not_restriction_mode(store, vamm, trader, block_height) {
        Ok(()) => (),
        Err(e) => {
            return Err(e);
        },
    }
    match require_non_zero_input(margin_amount) {
        Ok(()) => (),
        Err(e) => {
            return Err(e);
        },
    }
    match require_non_zero_input(leverage) {
        Ok(()) => (),
        Err(e) => {
            return Err(e);
        },
    }
    if leverage < config.decimals {
        return Err(EngineError::LeverageTooSmall);
    }

    // margin ratio of the new trade with respect to its leverage
    proof {
        crate::integer::lemma_mul_le(
            config.decimals,
            config.decimals,
            crate::types::MAX_SCALE,
            crate::types::MAX_SCALE,
        );
    }
    let trade_ratio = (config.decimals * config.decimals) / leverage;
    if trade_ratio < config.initial_margin_ratio {
        return Err(EngineError::Undercollateralized);
    }

    proof {
        crate::integer::lemma_mul_le(margin_amount, leverage, MAX_AMOUNT, MAX_AMOUNT);
    }
    let open_notional = (margin_amount * leverage) / config.decimals;
    if open_notional > MAX_AMOUNT {
        return Err(EngineError::AmountOutOfRange);
    }

    let position = get_position(store, vamm, trader, &side, block_height);

    let is_increase = position.size.is_zero() || (matches!(
        position.direction,
        Direction::AddToAmm,
    ) && matches!(side, Side::Buy)) || (matches!(position.direction, Direction::RemoveFromAmm)
        && matches!(side, Side::Sell));

    let pnl_response = get_position_notional_unrealized_pnl(
        store,
        &position,
        PnlCalcOption::SpotPrice,
        quote,
    );

    let msg = if is_increase {
        internal_increase_position(vamm, &side, open_notional, base_asset_limit)
    } else {
        // reduce when the existing exposure is worth more at spot than the
        // new notional; otherwise unwind the whole size first
        if pnl_response.position_notional > open_notional {
            swap_input(vamm, &side, open_notional, base_asset_limit, false, TradeKind::Decrease)
        } else {
            let unwind_side = direction_to_side(&position.direction);
            swap_output(vamm, &unwind_side, position.size.value, 0, TradeKind::Reverse)
        }
    };

    store.store_tmp_swap(
        &TmpSwapInfo {
            vamm,
            trader,
            side,
            margin_amount,
            leverage,
            open_notional,
            position_notional: pnl_response.position_notional,
            unrealized_pnl: pnl_response.unrealized_pnl,
            margin_to_vault: Integer::zero(),
            fees_paid: false,
        },
    );
    store.store_sent_funds(&crate::types::SentFunds { asset: *sent, required: 0 });

    Ok(msg)
}

/// The intent a full close or full liquidation stages: unwind the whole
/// size at its recorded cost basis.
pub open spec fn spec_close_staged(position: Position) -> TmpSwapInfo {
    TmpSwapInfo {
        vamm: position.vamm,
        trader: position.trader,
        side: if position.direction == Direction::AddToAmm {
            Side::Buy
        } else {
            Side::Sell
        },
        margin_amount: position.size.value,
        leverage: 0,
        open_notional: position.notional,
        position_notional: 0,
        unrealized_pnl: Integer { negative: false, value: 0 },
        margin_to_vault: Integer { negative: false, value: 0 },
        fees_paid: false,
    }
}

/// Stages the full unwind of an existing position and returns the
/// swap-output request for its whole size, bounded by the caller's quote
/// limit. Shared by explicit close and full liquidation, which differ
/// only in the settlement the result is dispatched to.
pub fn internal_close_position(
    store: &mut EngineStorage,
    position: &Position,
    quote_asset_limit: u128,
    kind: TradeKind,
) -> (r: SwapRequest)
    requires
        old(store).inv(),
        position.wf(),
        position.vamm != 0,
        position.trader != 0,
    ensures
        final(store).inv(),
        r == spec_swap_output(
            position.vamm,
            if position.direction == Direction::AddToAmm {
                Side::Buy
            } else {
                Side::Sell
            },
            position.size.value,
            quote_asset_limit,
            kind,
        ),
        final(store).tmp_swap == Some(spec_close_staged(*position)),
        *final(store) == (EngineStorage { tmp_swap: Some(spec_close_staged(*position)), ..*old(store) }),
{
    let side = direction_to_side(&position.direction);
    store.store_tmp_swap(
        &TmpSwapInfo {
            vamm: position.vamm,
            trader: position.trader,
            side,
            margin_amount: position.size.value,
            leverage: 0,
            open_notional: position.notional,
            position_notional: 0,
            unrealized_pnl: Integer::zero(),
            margin_to_vault: Integer::zero(),
            fees_paid: false,
        },
    );
    swap_output(position.vamm, &side, position.size.value, quote_asset_limit, kind)
}

/// The validation ladder of `close_position`.
pub open spec fn spec_close_validate(
    store: EngineStorage,
    block_height: u64,
    trader: u64,
    vamm: u64,
) -> Option<EngineError> {
    if store.state.pause {
        Some(EngineError::Paused)
    } else if store.spec_position(vamm, trader).size.as_int() == 0 {
        Some(EngineError::PositionZero)
    } else if store.spec_last_restriction_block(vamm) == block_height && store.spec_position(
        vamm,
        trader,
    ).block_number == block_height {
        Some(EngineError::RestrictionViolation)
    } else {
        None
    }
}

/// Whether a close must be partial: the full unwind would breach the
/// market's fluctuation limit and the partial-liquidation ratio is below
/// one.
pub open spec fn spec_close_is_partial(store: EngineStorage, over_fluctuation: bool) -> bool {
    over_fluctuation && store.config.partial_liquidation_ratio < store.config.decimals
}

/// The fraction of the position size a partial close or partial
/// liquidation unwinds: `size * partial_liquidation_ratio / scale`.
pub open spec fn spec_partial_amount(store: EngineStorage, size: u128) -> int {
    (size * store.config.partial_liquidation_ratio) as int / (store.config.decimals as int)
}

/// The intent a partial close stages.
pub open spec fn spec_partial_close_staged(
    store: EngineStorage,
    position: Position,
    partial_close_notional: u128,
    quote: AmmQuote,
) -> TmpSwapInfo {
    let pnl = spec_pnl(position, quote.output_amount as int);
    TmpSwapInfo {
        vamm: position.vamm,
        trader: position.trader,
        side: if position.size.as_int() > 0 {
            Side::Sell
        } else {
            Side::Buy
        },
        margin_amount: position.size.value,
        leverage: store.config.decimals,
        open_notional: partial_close_notional,
        position_notional: quote.output_amount,
        unrealized_pnl: crate::integer::int_to_integer(pnl),
        margin_to_vault: Integer { negative: false, value: 0 },
        fees_paid: false,
    }
}

/// Closes the trader's position, fully or — when the full unwind would
/// breach the market's fluctuation limit and partial closes are enabled —
/// for the configured fraction of its size, leaving the remainder open.
///
/// `over_fluctuation` is the market's answer to whether unwinding the
/// full size breaches its fluctuation limit; `partial_close_notional` the
/// market's spot quote for unwinding the partial fraction (read only in
/// the partial branch); `quote` the spot quote for the full size. On any
/// error the store is untouched.
pub fn close_position(
    store: &mut EngineStorage,
    block_height: u64,
    trader: u64,
    vamm: u64,
    quote_asset_limit: u128,
    over_fluctuation: bool,
    partial_close_notional: u128,
    quote: &AmmQuote,
) -> (r: Result<SwapRequest, EngineError>)
    requires
        old(store).inv(),
        partial_close_notional <= MAX_AMOUNT,
        quote.wf(),
    ensures
        final(store).inv(),
        match r {
            Err(e) => {
                &&& spec_close_validate(*old(store), block_height, trader, vamm) == Some(e)
                &&& *final(store) == *old(store)
            },
            Ok(req) => {
                &&& spec_close_validate(*old(store), block_height, trader, vamm) is None
                &&& {
                    let position = old(store).spec_position(vamm, trader);
                    if spec_close_is_partial(*old(store), over_fluctuation) {
                        &&& req == spec_swap_input(
                            vamm,
                            if position.size.as_int() > 0 {
                                Side::Sell
                            } else {
                                Side::Buy
                            },
                            partial_close_notional,
                            0,
                            true,
                            TradeKind::PartialClose,
                        )
                        &&& *final(store) == (EngineStorage {
                            tmp_swap: Some(
                                spec_partial_close_staged(
                                    *old(store),
                                    position,
                                    partial_close_notional,
                                    *quote,
                                ),
                            ),
                            ..*old(store)
                        })
                    } else {
                        &&& req == spec_swap_output(
                            vamm,
                            if position.direction == Direction::AddToAmm {
                                Side::Buy
                            } else {
                                Side::Sell
                            },
                            position.size.value,
                            quote_asset_limit,
                            TradeKind::Close,
                        )
                        &&& *final(store) == (EngineStorage {
                            tmp_swap: Some(spec_close_staged(position)),
                            ..*old(store)
                        })
                    }
                }
            },
        },
{
    let config = store.read_config();
    let state = store.read_state();
    let position = store.read_position(vamm, trader);

    match require_not_paused(state.pause) {
        Ok(()) => (),
        Err(e) => {
            return Err(e);
        },
    }
    match require_position_not_zero(position.size.value) {
        Ok(()) => (),
        Err(e) => {
            return Err(e);
        },
    }
    match require_not_restriction_mode(store, vamm, trader, block_height) {
        Ok(()) => (),
        Err(e) => {
            return Err(e);
        },
    }

    proof {
        assert(position.wf()) by {
            assert(old(store).inv());
        }
    }

    let msg = if over_fluctuation && config.partial_liquidation_ratio < config.decimals {
        let side = position_to_side(position.size);

        let pnl_response = get_position_notional_unrealized_pnl(
            store,
            &position,
            PnlCalcOption::SpotPrice,
            quote,
        );

        store.store_tmp_swap(
            &TmpSwapInfo {
                vamm: position.vamm,
                trader: position.trader,
                side,
                margin_amount: position.size.value,
                leverage: config.decimals,
                open_notional: partial_close_notional,
                position_notional: pnl_response.position_notional,
                unrealized_pnl: pnl_response.unrealized_pnl,
                margin_to_vault: Integer::zero(),
                fees_paid: false,
            },
        );

        swap_input(vamm, &side, partial_close_notional, 0, true, TradeKind::PartialClose)
    } else {
        internal_close_position(store, &position, quote_asset_limit, TradeKind::Close)
    };

    Ok(msg)
}

/// The margin ratio the liquidation engine judges by: the spot ratio, or
/// the oracle ratio when the market's spread limit is breached and the
/// oracle ratio is the worse (higher) of the two.
pub open spec fn spec_liquidation_ratio(
    store: EngineStorage,
    position: Position,
    over_spread: bool,
    quote: AmmQuote,
) -> int {
    let spot = crate::margin::spec_margin_ratio(store, position, quote.output_amount as int);
    if over_spread {
        let oracle = crate::margin::spec_margin_ratio(
            store,
            position,
            crate::margin::spec_notional_for_option(
                position,
                PnlCalcOption::Oracle,
                quote,
                store.config.decimals,
            ),
        );
        if oracle - spot > 0 {
            oracle
        } else {
            spot
        }
    } else {
        spot
    }
}

/// The validation ladder of `liquidate`.
pub open spec fn spec_liquidate_validate(
    store: EngineStorage,
    vamm: u64,
    trader: u64,
    status: MarketStatus,
    over_spread: bool,
    quote: AmmQuote,
) -> Option<EngineError> {
    let position = store.spec_position(vamm, trader);
    let oracle_notional = crate::margin::spec_notional_for_option(
        position,
        PnlCalcOption::Oracle,
        quote,
        store.config.decimals,
    );
    if position.size.as_int() != 0 && !crate::margin::spec_ratio_ok(
        store,
        position,
        quote.output_amount as int,
    ) {
        Some(EngineError::AmountOutOfRange)
    } else if over_spread && position.size.as_int() != 0 && !crate::margin::spec_ratio_ok(
        store,
        position,
        oracle_notional,
    ) {
        Some(EngineError::AmountOutOfRange)
    } else if store.config.insurance_fund is None {
        Some(EngineError::InsuranceNotRegistered)
    } else if !status.registered {
        Some(EngineError::VammNotRegistered)
    } else if !status.open {
        Some(EngineError::VammNotOpen)
    } else if position.size.as_int() != 0 && spec_liquidation_ratio(store, position, over_spread, quote)
        > store.config.maintenance_margin_ratio {
        Some(EngineError::Overcollateralized)
    } else if position.size.as_int() == 0 {
        Some(EngineError::PositionZero)
    } else {
        None
    }
}

/// Whether the liquidation is partial: the position retains more margin
/// than the liquidation fee ratio and partial liquidation is enabled.
pub open spec fn spec_liquidation_is_partial(
    store: EngineStorage,
    position: Position,
    over_spread: bool,
    quote: AmmQuote,
) -> bool {
    &&& spec_liquidation_ratio(store, position, over_spread, quote)
        > store.config.liquidation_fee as int
    &&& store.config.partial_liquidation_ratio != 0
}

/// The intent a partial liquidation stages: unwind the configured
/// fraction of the size at its quoted market value.
pub open spec fn spec_partial_liquidation_staged(
    store: EngineStorage,
    position: Position,
    partial_close_notional: u128,
    quote: AmmQuote,
) -> TmpSwapInfo {
    let pnl = spec_pnl(position, quote.output_amount as int);
    TmpSwapInfo {
        vamm: position.vamm,
        trader: position.trader,
        side: if position.size.as_int() > 0 {
            Side::Sell
        } else {
            Side::Buy
        },
        margin_amount: spec_partial_amount(store, position.size.value) as u128,
        leverage: 0,
        open_notional: partial_close_notional,
        position_notional: 0,
        unrealized_pnl: crate::integer::int_to_integer(pnl),
        margin_to_vault: Integer { negative: false, value: 0 },
        fees_paid: false,
    }
}

/// The swap request a partial liquidation issues: when the quoted market
/// value of the fraction exceeds its recorded cost basis, spend the cost
/// basis as a swap-input; otherwise unwind the fraction as a swap-output
/// bounded by the scaled caller limit.
pub open spec fn spec_partial_liquidation_request(
    store: EngineStorage,
    position: Position,
    quote_asset_limit: u128,
    partial_close_notional: u128,
) -> SwapRequest {
    let unwind_side = if position.direction == Direction::AddToAmm {
        Side::Buy
    } else {
        Side::Sell
    };
    if partial_close_notional > position.notional {
        spec_swap_input(position.vamm, unwind_side, position.notional, 0, true, TradeKind::PartialLiquidate)
    } else {
        spec_swap_output(
            position.vamm,
            unwind_side,
            spec_partial_amount(store, position.size.value) as u128,
            ((quote_asset_limit * store.config.partial_liquidation_ratio) as int / (
            store.config.decimals as int)) as u128,
            TradeKind::PartialLiquidate,
        )
    }
}

fn partial_liquidation(
    store: &mut EngineStorage,
    vamm: u64,
    trader: u64,
    quote_asset_limit: u128,
    partial_close_notional: u128,
    quote: &AmmQuote,
) -> (r: SwapRequest)
    requires
        old(store).inv(),
        old(store).spec_position(vamm, trader).size.as_int() != 0,
        quote_asset_limit <= MAX_AMOUNT,
        partial_close_notional <= MAX_AMOUNT,
        quote.wf(),
    ensures
        final(store).inv(),
        r == spec_partial_liquidation_request(
            *old(store),
            old(store).spec_position(vamm, trader),
            quote_asset_limit,
            partial_close_notional,
        ),
        *final(store) == (EngineStorage {
            tmp_swap: Some(
                spec_partial_liquidation_staged(
                    *old(store),
                    old(store).spec_position(vamm, trader),
                    partial_close_notional,
                    *quote,
                ),
            ),
            ..*old(store)
        }),
{
    let config = store.read_config();
    let position = store.read_position(vamm, trader);
    proof {
        assert(position.wf()) by {
            assert(old(store).inv());
        }
        crate::integer::lemma_mul_le(
            position.size.value,
            config.partial_liquidation_ratio,
            MAX_AMOUNT,
            crate::types::MAX_SCALE,
        );
        crate::integer::lemma_mul_le(
            quote_asset_limit,
            config.partial_liquidation_ratio,
            MAX_AMOUNT,
            crate::types::MAX_SCALE,
        );
        assert((position.size.value * config.partial_liquidation_ratio) as int / (
        config.decimals as int) <= position.size.value * config.partial_liquidation_ratio)
            by (nonlinear_arith)
            requires
                config.decimals >= 1,
                position.size.value * config.partial_liquidation_ratio >= 0,
        ;
    }

    let partial_position_size = (position.size.value * config.partial_liquidation_ratio)
        / config.decimals;
    proof {
        assert(partial_position_size <= position.size.value) by (nonlinear_arith)
            requires
                partial_position_size == (position.size.value
                    * config.partial_liquidation_ratio) as int / (config.decimals as int),
                config.partial_liquidation_ratio <= config.decimals,
                config.decimals >= 1,
                position.size.value >= 0,
        ;
    }
    let partial_asset_limit = (quote_asset_limit * config.partial_liquidation_ratio)
        / config.decimals;

    let pnl_response = get_position_notional_unrealized_pnl(
        store,
        &position,
        PnlCalcOption::SpotPrice,
        quote,
    );

    let side = position_to_side(position.size);

    proof {
        assert(pnl_response.unrealized_pnl.value <= MAX_AMOUNT);
    }
    store.store_tmp_swap(
        &TmpSwapInfo {
            vamm: position.vamm,
            trader: position.trader,
            side,
            margin_amount: partial_position_size,
            leverage: 0,
            open_notional: partial_close_notional,
            position_notional: 0,
            unrealized_pnl: pnl_response.unrealized_pnl,
            margin_to_vault: Integer::zero(),
            fees_paid: false,
        },
    );

    let unwind_side = direction_to_side(&position.direction);
    if partial_close_notional > position.notional {
        swap_input(position.vamm, &unwind_side, position.notional, 0, true, TradeKind::PartialLiquidate)
    } else {
        swap_output(
            position.vamm,
            &unwind_side,
            partial_position_size,
            partial_asset_limit,
            TradeKind::PartialLiquidate,
        )
    }
}

/// Liquidates an undercollateralized position, partially when the margin
/// ratio still exceeds the liquidation fee ratio and partial liquidation
/// is enabled, else fully.
///
/// The margin ratio is judged under spot pricing; when the market reports
/// its spread limit breached (`over_spread`), the oracle ratio is used if
/// it is worse. The caller becomes the recorded liquidator. On any error
/// the store is untouched.
pub fn liquidate(
    store: &mut EngineStorage,
    liquidator: u64,
    vamm: u64,
    trader: u64,
    quote_asset_limit: u128,
    status: &MarketStatus,
    over_spread: bool,
    partial_close_notional: u128,
    quote: &AmmQuote,
) -> (r: Result<SwapRequest, EngineError>)
    requires
        old(store).inv(),
        quote_asset_limit <= MAX_AMOUNT,
        partial_close_notional <= MAX_AMOUNT,
        quote.wf(),
    ensures
        final(store).inv(),
        match r {
            Err(e) => {
                &&& spec_liquidate_validate(*old(store), vamm, trader, *status, over_spread, *quote)
                    == Some(e)
                &&& *final(store) == *old(store)
            },
            Ok(req) => {
                &&& spec_liquidate_validate(*old(store), vamm, trader, *status, over_spread, *quote)
                    is None
                &&& {
                    let position = old(store).spec_position(vamm, trader);
                    if spec_liquidation_is_partial(*old(store), position, over_spread, *quote) {
                        &&& req == spec_partial_liquidation_request(
                            *old(store),
                            position,
                            quote_asset_limit,
                            partial_close_notional,
                        )
                        &&& *final(store) == (EngineStorage {
                            tmp_swap: Some(
                                spec_partial_liquidation_staged(
                                    *old(store),
                                    position,
                                    partial_close_notional,
                                    *quote,
                                ),
                            ),
                            tmp_liquidator: Some(liquidator),
                            ..*old(store)
                        })
                    } else {
                        &&& req == spec_swap_output(
                            vamm,
                            if position.direction == Direction::AddToAmm {
                                Side::Buy
                            } else {
                                Side::Sell
                            },
                            position.size.value,
                            quote_asset_limit,
                            TradeKind::Liquidate,
                        )
                        &&& *final(store) == (EngineStorage {
                            tmp_swap: Some(spec_close_staged(position)),
                            tmp_liquidator: Some(liquidator),
                            ..*old(store)
                        })
                    }
                }
            },
        },
{
    let config = store.read_config();

    let mut margin_ratio = match crate::margin::query_margin_ratio(store, vamm, trader, quote) {
        Ok(ratio) => ratio,
        Err(e) => {
            return Err(e);
        },
    };

    if over_spread {
        let oracle_margin_ratio = match crate::margin::get_margin_ratio_calc_option(
            store,
            vamm,
            trader,
            PnlCalcOption::Oracle,
            quote,
        ) {
            Ok(ratio) => ratio,
            Err(e) => {
                return Err(e);
            },
        };
        proof {
            assert(oracle_margin_ratio.value <= MAX_DELTA && margin_ratio.value <= MAX_DELTA);
        }
        let difference = crate::integer::expect_some(oracle_margin_ratio.checked_sub(margin_ratio));
        if difference.gt(&Integer::zero()) {
            margin_ratio = oracle_margin_ratio;
        }
    }

    match require_vamm(config.insurance_fund, status) {
        Ok(()) => (),
        Err(e) => {
            return Err(e);
        },
    }
    match crate::guards::require_insufficient_margin(margin_ratio, config.maintenance_margin_ratio) {
        Ok(()) => (),
        Err(e) => {
            return Err(e);
        },
    }

    let position = store.read_position(vamm, trader);
    match require_position_not_zero(position.size.value) {
        Ok(()) => (),
        Err(e) => {
            return Err(e);
        },
    }

    let msg = if margin_ratio.gt(&Integer::new_positive(config.liquidation_fee))
        && config.partial_liquidation_ratio != 0 {
        partial_liquidation(store, vamm, trader, quote_asset_limit, partial_close_notional, quote)
    } else {
        proof {
            assert(position.wf()) by {
                assert(old(store).inv());
            }
        }
        internal_close_position(store, &position, quote_asset_limit, TradeKind::Liquidate)
    };

    store.store_tmp_liquidator(liquidator);

    Ok(msg)
}

/// Settles funding in the market specified: phase one only checks that
/// the market is registered and open and asks the host to have the market
/// settle one funding round; the reported premium fraction is folded in
/// by the funding settlement handler.
pub fn pay_funding(store: &EngineStorage, vamm: u64, status: &MarketStatus) -> (r: Result<
    FundingRequest,
    EngineError,
>)
    requires
        store.inv(),
    ensures
        match r {
            Ok(req) => {
                &&& store.config.insurance_fund is Some
                &&& status.registered
                &&& status.open
                &&& req == (FundingRequest { vamm })
            },
            Err(e) => {
                &&& !(store.config.insurance_fund is Some && status.registered && status.open)
                &&& e == (if store.config.insurance_fund is None {
                    EngineError::InsuranceNotRegistered
                } else if !status.registered {
                    EngineError::VammNotRegistered
                } else {
                    EngineError::VammNotOpen
                })
            },
        },
{
    let config = store.read_config();
    match require_vamm(config.insurance_fund, status) {
        Ok(()) => Ok(FundingRequest { vamm }),
        Err(e) => Err(e),
    }
}

/// The validation ladder of `deposit_margin`.
pub open spec fn spec_deposit_validate(
    store: EngineStorage,
    trader: u64,
    vamm: u64,
    amount: u128,
) -> Option<EngineError> {
    let position = store.spec_position(vamm, trader);
    if store.state.pause {
        Some(EngineError::Paused)
    } else if amount == 0 {
        Some(EngineError::ZeroInput)
    } else if position.trader != trader || position.size.as_int() == 0 {
        Some(EngineError::PositionNotFound)
    } else if position.margin + amount > MAX_AMOUNT {
        Some(EngineError::AmountOutOfRange)
    } else {
        None
    }
}

/// Enables a user to directly deposit margin into their position. The
/// host performs the matching collateral transfer only after this
/// succeeds. Depositing into a missing or fully closed position is
/// rejected: a flat position carries no margin.
pub fn deposit_margin(store: &mut EngineStorage, trader: u64, vamm: u64, amount: u128) -> (r:
    Result<(), EngineError>)
    requires
        old(store).inv(),
        amount <= MAX_AMOUNT,
    ensures
        final(store).inv(),
        match r {
            Err(e) => {
                &&& spec_deposit_validate(*old(store), trader, vamm, amount) == Some(e)
                &&& *final(store) == *old(store)
            },
            Ok(()) => {
                &&& spec_deposit_validate(*old(store), trader, vamm, amount) is None
                &&& final(store).spec_position(vamm, trader) == (Position {
                    margin: (old(store).spec_position(vamm, trader).margin + amount) as u128,
                    ..old(store).spec_position(vamm, trader)
                })
                &&& forall|v: u64, t: u64|
                    crate::storage::pos_key(v, t) != crate::storage::pos_key(vamm, trader)
                        ==> #[trigger] final(store).spec_position(v, t) == old(store).spec_position(
                        v,
                        t,
                    )
                &&& final(store).same_but_positions(*old(store))
            },
        },
{
    let state = store.read_state();
    match require_not_paused(state.pause) {
        Ok(()) => (),
        Err(e) => {
            return Err(e);
        },
    }
    match require_non_zero_input(amount) {
        Ok(()) => (),
        Err(e) => {
            return Err(e);
        },
    }

    let mut position = store.read_position(vamm, trader);
    if position.trader != trader || position.size.value == 0 {
        return Err(EngineError::PositionNotFound);
    }
    proof {
        assert(position.wf() && position.vamm != 0 && position.trader != 0) by {
            assert(old(store).inv());
        }
    }
    if amount > MAX_AMOUNT - position.margin {
        return Err(EngineError::AmountOutOfRange);
    }

    position.margin = position.margin + amount;
    store.store_position(&position);

    Ok(())
}

/// The free-collateral rule: margin remaining after funding and any
/// unrealized loss (profit does not count), minus the initial margin the
/// open notional still requires.
pub open spec fn spec_free_collateral(
    store: EngineStorage,
    position: Position,
    spot_notional: int,
) -> int {
    let loss = if spec_pnl(position, spot_notional) < 0 {
        spec_pnl(position, spot_notional)
    } else {
        0
    };
    let requirement = (position.notional * store.config.initial_margin_ratio) as int / (
    store.config.decimals as int);
    spec_remain_margin(store, position, loss) - spec_bad_debt(store, position, loss) - requirement
}

/// Collateral a trader could withdraw without dropping below the initial
/// margin requirement: remaining margin after funding, counting
/// unrealized losses (under spot pricing) but not unrealized profits,
/// minus `notional * initial_margin_ratio / scale`. A flat position's
/// free collateral is zero.
pub fn query_free_collateral(store: &EngineStorage, vamm: u64, trader: u64, quote: &AmmQuote) -> (r:
    Integer)
    requires
        store.inv(),
        quote.wf(),
    ensures
        r.wf(),
        r.value <= 2 * MAX_DELTA + 2 * MAX_AMOUNT + MAX_AMOUNT * crate::types::MAX_SCALE,
        r.as_int() == spec_free_collateral(
            *store,
            store.spec_position(vamm, trader),
            if store.spec_position(vamm, trader).size.as_int() == 0 {
                0
            } else {
                quote.output_amount as int
            },
        ),
{
    let position = store.read_position(vamm, trader);
    proof {
        if store.positions@.contains_key(crate::storage::pos_key(vamm, trader)) {
            assert(position.wf()) by {
                assert(store.inv());
            }
        }
    }
    let pnl_response = get_position_notional_unrealized_pnl(
        store,
        &position,
        PnlCalcOption::SpotPrice,
        quote,
    );
    let loss = if pnl_response.unrealized_pnl.is_negative() {
        pnl_response.unrealized_pnl
    } else {
        Integer::zero()
    };
    let remain = calc_remain_margin_with_funding_payment(store, position, loss);
    proof {
        crate::integer::lemma_mul_le(
            position.notional,
            store.config.initial_margin_ratio,
            MAX_AMOUNT,
            crate::types::MAX_SCALE,
        );
        crate::margin::lemma_funding_payment_bound(
            store.spec_latest_premium_fraction(position.vamm),
            position.last_updated_premium_fraction,
            position.size,
            store.config.decimals,
        );
    }
    let requirement = (position.notional * store.config.initial_margin_ratio)
        / store.config.decimals;
    let margin_int = Integer::new_positive(remain.margin);
    let with_debt = crate::integer::expect_some(margin_int.checked_sub(Integer::new_positive(remain.bad_debt)));
    crate::integer::expect_some(with_debt.checked_sub(Integer::new_positive(requirement)))
}

/// The validation ladder of `withdraw_margin`.
pub open spec fn spec_withdraw_validate(
    store: EngineStorage,
    trader: u64,
    vamm: u64,
    amount: u128,
    status: MarketStatus,
    quote: AmmQuote,
) -> Option<EngineError> {
    let position = store.spec_position(vamm, trader);
    let spot_notional = if position.size.as_int() == 0 {
        0int
    } else {
        quote.output_amount as int
    };
    if store.config.insurance_fund is None {
        Some(EngineError::InsuranceNotRegistered)
    } else if !status.registered {
        Some(EngineError::VammNotRegistered)
    } else if !status.open {
        Some(EngineError::VammNotOpen)
    } else if store.state.pause {
        Some(EngineError::Paused)
    } else if amount == 0 {
        Some(EngineError::ZeroInput)
    } else if spec_bad_debt(store, position, -(amount as int)) != 0 {
        Some(EngineError::InsufficientMargin)
    } else if spec_remain_margin(store, position, -(amount as int)) > MAX_AMOUNT {
        Some(EngineError::AmountOutOfRange)
    } else if spec_free_collateral(store, position, spot_notional) - amount < 0 {
        Some(EngineError::InsufficientCollateral)
    } else {
        None
    }
}

/// Enables a user to directly withdraw excess margin from their
/// position: funding is settled (the checkpoint advances), the amount is
/// taken from the remaining margin, and the withdrawal is rejected if it
/// would create bad debt or exceed the position's free collateral. The
/// host transfers the amount out only after this succeeds.
pub fn withdraw_margin(
    store: &mut EngineStorage,
    trader: u64,
    vamm: u64,
    amount: u128,
    status: &MarketStatus,
    quote: &AmmQuote,
) -> (r: Result<(), EngineError>)
    requires
        old(store).inv(),
        vamm != 0,
        trader != 0,
        amount <= MAX_AMOUNT,
        quote.wf(),
    ensures
        final(store).inv(),
        match r {
            Err(e) => {
                &&& spec_withdraw_validate(*old(store), trader, vamm, amount, *status, *quote)
                    == Some(e)
                &&& *final(store) == *old(store)
            },
            Ok(()) => {
                &&& spec_withdraw_validate(*old(store), trader, vamm, amount, *status, *quote)
                    is None
                &&& final(store).spec_position(vamm, trader) == (Position {
                    margin: spec_remain_margin(
                        *old(store),
                        old(store).spec_position(vamm, trader),
                        -(amount as int),
                    ) as u128,
                    last_updated_premium_fraction: old(store).spec_latest_premium_fraction(vamm),
                    ..old(store).spec_position(vamm, trader)
                })
                &&& forall|v: u64, t: u64|
                    crate::storage::pos_key(v, t) != crate::storage::pos_key(vamm, trader)
                        ==> #[trigger] final(store).spec_position(v, t) == old(store).spec_position(
                        v,
                        t,
                    )
                &&& final(store).same_but_positions(*old(store))
            },
        },
{
    let config = store.read_config();
    let state = store.read_state();

    match require_vamm(config.insurance_fund, status) {
        Ok(()) => (),
        Err(e) => {
            return Err(e);
        },
    }
    match require_not_paused(state.pause) {
        Ok(()) => (),
        Err(e) => {
            return Err(e);
        },
    }
    match require_non_zero_input(amount) {
        Ok(()) => (),
        Err(e) => {
            return Err(e);
        },
    }

    let mut position = store.read_position(vamm, trader);
    proof {
        if store.positions@.contains_key(crate::storage::pos_key(vamm, trader)) {
            assert(position.wf()) by {
                assert(old(store).inv());
            }
        }
    }

    let remain = calc_remain_margin_with_funding_payment(store, position, Integer::new_negative(amount));
    match require_bad_debt(remain.bad_debt) {
        Ok(()) => (),
        Err(e) => {
            return Err(e);
        },
    }
    if remain.margin > MAX_AMOUNT {
        return Err(EngineError::AmountOutOfRange);
    }

    let free_collateral = query_free_collateral(store, vamm, trader, quote);
    if crate::integer::expect_some(free_collateral.checked_sub(Integer::new_positive(amount))).is_negative() {
        return Err(EngineError::InsufficientCollateral);
    }

    position.margin = remain.margin;
    position.last_updated_premium_fraction = remain.latest_premium_fraction;

    // a position with margin necessarily has exposure: withdrawing from a
    // missing or flat record is stopped by the bad-debt or free-collateral
    // checks above, which see zero margin
    proof {
        assert(position.size.as_int() != 0 && position.vamm != 0 && position.trader != 0);
    }
    store.store_position(&position);

    Ok(())
}

/// The configuration `update_config` would commit, or the first
/// validation failure: each provided field is validated and applied in
/// order, ratios against the scale and the margin-ratio pair against each
/// other.
pub open spec fn spec_updated_config(
    config: crate::types::Config,
    owner: Option<u64>,
    insurance_fund: Option<u64>,
    fee_pool: Option<u64>,
    initial_margin_ratio: Option<u128>,
    maintenance_margin_ratio: Option<u128>,
    partial_liquidation_ratio: Option<u128>,
    liquidation_fee: Option<u128>,
) -> Result<crate::types::Config, EngineError> {
    let c1 = crate::types::Config {
        owner: if owner is Some {
            owner->0
        } else {
            config.owner
        },
        insurance_fund: if insurance_fund is Some {
            insurance_fund
        } else {
            config.insurance_fund
        },
        fee_pool: if fee_pool is Some {
            fee_pool->0
        } else {
            config.fee_pool
        },
        ..config
    };
    if initial_margin_ratio is Some && (initial_margin_ratio->0 > config.decimals
        || initial_margin_ratio->0 < c1.maintenance_margin_ratio) {
        Err(EngineError::InvalidRatio)
    } else {
        let c2 = crate::types::Config {
            initial_margin_ratio: if initial_margin_ratio is Some {
                initial_margin_ratio->0
            } else {
                c1.initial_margin_ratio
            },
            ..c1
        };
        if maintenance_margin_ratio is Some && (maintenance_margin_ratio->0 > config.decimals
            || maintenance_margin_ratio->0 > c2.initial_margin_ratio) {
            Err(EngineError::InvalidRatio)
        } else {
            let c3 = crate::types::Config {
                maintenance_margin_ratio: if maintenance_margin_ratio is Some {
                    maintenance_margin_ratio->0
                } else {
                    c2.maintenance_margin_ratio
                },
                ..c2
            };
            if partial_liquidation_ratio is Some && partial_liquidation_ratio->0
                > config.decimals {
                Err(EngineError::InvalidRatio)
            } else {
                let c4 = crate::types::Config {
                    partial_liquidation_ratio: if partial_liquidation_ratio is Some {
                        partial_liquidation_ratio->0
                    } else {
                        c3.partial_liquidation_ratio
                    },
                    ..c3
                };
                if liquidation_fee is Some && liquidation_fee->0 > config.decimals {
                    Err(EngineError::InvalidRatio)
                } else {
                    Ok(
                        crate::types::Config {
                            liquidation_fee: if liquidation_fee is Some {
                                liquidation_fee->0
                            } else {
                                c4.liquidation_fee
                            },
                            ..c4
                        },
                    )
                }
            }
        }
    }
}

/// Owner-authorized configuration update: each field given is validated
/// and applied in order; the first invalid ratio aborts the whole update
/// and the store is untouched.
#[verifier::rlimit(50)]
pub fn update_config(
    store: &mut EngineStorage,
    sender: u64,
    owner: Option<u64>,
    insurance_fund: Option<u64>,
    fee_pool: Option<u64>,
    initial_margin_ratio: Option<u128>,
    maintenance_margin_ratio: Option<u128>,
    partial_liquidation_ratio: Option<u128>,
    liquidation_fee: Option<u128>,
) -> (r: Result<(), EngineError>)
    requires
        old(store).inv(),
    ensures
        final(store).inv(),
        match r {
            Err(e) => {
                &&& *final(store) == *old(store)
                &&& if sender != old(store).config.owner {
                    e == EngineError::Unauthorized
                } else {
                    Err::<crate::types::Config, _>(e) == spec_updated_config(
                        old(store).config,
                        owner,
                        insurance_fund,
                        fee_pool,
                        initial_margin_ratio,
                        maintenance_margin_ratio,
                        partial_liquidation_ratio,
                        liquidation_fee,
                    )
                }
            },
            Ok(()) => {
                &&& sender == old(store).config.owner
                &&& Ok::<crate::types::Config, EngineError>(final(store).config)
                    == spec_updated_config(
                    old(store).config,
                    owner,
                    insurance_fund,
                    fee_pool,
                    initial_margin_ratio,
                    maintenance_margin_ratio,
                    partial_liquidation_ratio,
                    liquidation_fee,
                )
                &&& final(store).state == old(store).state
                &&& final(store).positions@ == old(store).positions@
                &&& final(store).vamm_maps@ == old(store).vamm_maps@
                &&& final(store).whitelist@ == old(store).whitelist@
                &&& final(store).tmp_swap == old(store).tmp_swap
                &&& final(store).tmp_liquidator == old(store).tmp_liquidator
                &&& final(store).sent_funds == old(store).sent_funds
            },
        },
{
    let mut config = store.read_config();

    if sender != config.owner {
        return Err(EngineError::Unauthorized);
    }

    if let Some(new_owner) = owner {
        config.owner = new_owner;
    }
    if let Some(new_insurance_fund) = insurance_fund {
        config.insurance_fund = Some(new_insurance_fund);
    }
    if let Some(new_fee_pool) = fee_pool {
        config.fee_pool = new_fee_pool;
    }

    if let Some(ratio) = initial_margin_ratio {
        match validate_ratio(ratio, config.decimals) {
            Ok(()) => (),
            Err(e) => {
                return Err(e);
            },
        }
        match validate_margin_ratios(ratio, config.maintenance_margin_ratio) {
            Ok(()) => (),
            Err(e) => {
                return Err(e);
            },
        }
        config.initial_margin_ratio = ratio;
    }

    if let Some(ratio) = maintenance_margin_ratio {
        match validate_ratio(ratio, config.decimals) {
            Ok(()) => (),
            Err(e) => {
                return Err(e);
            },
        }
        match validate_margin_ratios(config.initial_margin_ratio, ratio) {
            Ok(()) => (),
            Err(e) => {
                return Err(e);
            },
        }
        config.maintenance_margin_ratio = ratio;
    }

    if let Some(ratio) = partial_liquidation_ratio {
        match validate_ratio(ratio, config.decimals) {
            Ok(()) => (),
            Err(e) => {
                return Err(e);
            },
        }
        config.partial_liquidation_ratio = ratio;
    }

    if let Some(ratio) = liquidation_fee {
        match validate_ratio(ratio, config.decimals) {
            Ok(()) => (),
            Err(e) => {
                return Err(e);
            },
        }
        config.liquidation_fee = ratio;
    }

    store.store_config(&config);

    Ok(())
}

} // verus!
