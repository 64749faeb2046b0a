//! Swap settlement: phase two of every position-changing action.
//!
//! Each handler receives the confirmed execution of the swap staged in
//! phase one, folds the realized input and output into the position,
//! applies fees exactly once per physical trade, socializes any bad debt,
//! updates the aggregate open interest subject to the capacity caps, and
//! clears the staged intent. On any error nothing is persisted: the host
//! discards the staged intent with [`rollback_swap`] and the whole
//! operation is void.
//!
//! The handlers return a [`SettlementReceipt`]: the transfers the host
//! must perform. A positive `margin_to_vault` is collected from the
//! trader, a negative one paid out.

use vstd::prelude::*;

verus! {

use crate::error::EngineError;
use crate::handle::{get_position, spec_get_position, spec_is_increase};
use crate::integer::{Integer, MAX_AMOUNT, int_abs};
use crate::margin::{
    calc_remain_margin_with_funding_payment, spec_bad_debt, spec_remain_margin,
};
use crate::storage::EngineStorage;
use crate::types::{Direction, Position, Side, TmpSwapInfo};

/// The transfers one settlement obliges the host to perform.
#[derive(Clone, Copy, Debug, PartialEq, Eq, Structural)]
pub struct SettlementReceipt {
    /// Margin the vault nets: positive is collected from the trader,
    /// negative paid out to the trader.
    pub margin_to_vault: Integer,
    /// Toll fee owed to the fee pool.
    pub toll_to_fee_pool: u128,
    /// Spread fee owed to the insurance reserve.
    pub spread_to_insurance: u128,
    /// Liquidation fee owed to the liquidator.
    pub fee_to_liquidator: u128,
    /// Uncovered bad debt the host must draw from the insurance reserve.
    pub withdraw_from_insurance: u128,
    /// Total bad debt realized by this settlement.
    pub bad_debt: u128,
}

impl SettlementReceipt {
    pub open spec fn spec_zero() -> SettlementReceipt {
        SettlementReceipt {
            margin_to_vault: Integer { negative: false, value: 0 },
            toll_to_fee_pool: 0,
            spread_to_insurance: 0,
            fee_to_liquidator: 0,
            withdraw_from_insurance: 0,
            bad_debt: 0,
        }
    }
}

/// Nets realized bad debt against the prepaid balance: if the vault has
/// already prepaid enough, only the balance is decremented; otherwise the
/// uncovered delta must be drawn from the insurance reserve and the
/// prepaid balance is zeroed. Returns the delta to draw.
pub fn realize_bad_debt(store: &mut EngineStorage, bad_debt: u128) -> (r: u128)
    requires
        old(store).inv(),
    ensures
        final(store).inv(),
        if old(store).state.prepaid_bad_debt > bad_debt {
            &&& r == 0
            &&& final(store).state.prepaid_bad_debt == old(store).state.prepaid_bad_debt
                - bad_debt
        } else {
            &&& r == bad_debt - old(store).state.prepaid_bad_debt
            &&& final(store).state.prepaid_bad_debt == 0
        },
        final(store).state.open_interest_notional == old(store).state.open_interest_notional,
        final(store).state.pause == old(store).state.pause,
        final(store).config == old(store).config,
        final(store).positions@ == old(store).positions@,
        final(store).vamm_maps@ == old(store).vamm_maps@,
        final(store).whitelist@ == old(store).whitelist@,
        final(store).tmp_swap == old(store).tmp_swap,
        final(store).tmp_liquidator == old(store).tmp_liquidator,
        final(store).sent_funds == old(store).sent_funds,
{
    if store.state.prepaid_bad_debt > bad_debt {
        store.state.prepaid_bad_debt = store.state.prepaid_bad_debt - bad_debt;
        0
    } else {
        let delta = bad_debt - store.state.prepaid_bad_debt;
        store.state.prepaid_bad_debt = 0;
        delta
    }
}

/// The open interest after folding a signed notional change, clamped at
/// zero.
pub open spec fn spec_updated_open_interest(store: EngineStorage, amount: Integer) -> int {
    if store.state.open_interest_notional + amount.as_int() >= 0 {
        store.state.open_interest_notional + amount.as_int()
    } else {
        0
    }
}

/// Whether an open-interest change is blocked: the cap is set, the
/// change increases exposure, the result exceeds the cap, and the trader
/// is not whitelisted. Decreases are never blocked.
pub open spec fn spec_open_interest_blocked(
    store: EngineStorage,
    amount: Integer,
    cap: u128,
    trader: u64,
) -> bool {
    &&& cap != 0
    &&& amount.as_int() > 0
    &&& spec_updated_open_interest(store, amount) > cap
    &&& !store.spec_whitelisted(trader)
}

/// Folds a signed notional change into the aggregate open interest,
/// clamping at zero, and enforces the open-interest cap: an increase past
/// the cap is rejected unless the trader is whitelisted; a decrease is
/// never rejected. This blocks trades if open interest is too high,
/// required during the bootstrapping of the project.
pub fn update_open_interest_notional(
    store: &mut EngineStorage,
    amount: Integer,
    cap: u128,
    trader: u64,
) -> (r: Result<(), EngineError>)
    requires
        old(store).inv(),
        amount.wf(),
        old(store).state.open_interest_notional + amount.as_int() <= u128::MAX,
    ensures
        final(store).inv(),
        match r {
            Err(e) => {
                &&& e == EngineError::OpenInterestCapExceeded
                &&& spec_open_interest_blocked(*old(store), amount, cap, trader)
                &&& *final(store) == *old(store)
            },
            Ok(()) => {
                &&& !spec_open_interest_blocked(*old(store), amount, cap, trader)
                &&& final(store).state.open_interest_notional == spec_updated_open_interest(
                    *old(store),
                    amount,
                )
                &&& final(store).state.prepaid_bad_debt == old(store).state.prepaid_bad_debt
                &&& final(store).state.pause == old(store).state.pause
                &&& final(store).config == old(store).config
                &&& final(store).positions@ == old(store).positions@
                &&& final(store).vamm_maps@ == old(store).vamm_maps@
                &&& final(store).whitelist@ == old(store).whitelist@
                &&& final(store).tmp_swap == old(store).tmp_swap
                &&& final(store).tmp_liquidator == old(store).tmp_liquidator
                &&& final(store).sent_funds == old(store).sent_funds
            },
        },
{
    let updated: u128 = if amount.negative {
        if store.state.open_interest_notional >= amount.value {
            store.state.open_interest_notional - amount.value
        } else {
            0
        }
    } else {
        store.state.open_interest_notional + amount.value
    };

    if cap != 0 && !amount.negative && amount.value > 0 && updated > cap && !store.is_whitelisted(
        trader,
    ) {
        return Err(EngineError::OpenInterestCapExceeded);
    }

    store.state.open_interest_notional = updated;
    Ok(())
}

/// Enforces the per-trader base-asset holding cap: a holding above the
/// cap is rejected unless the trader is whitelisted. Called only when a
/// settlement increases exposure, so reducing is never blocked.
pub fn check_base_asset_holding_cap(store: &EngineStorage, size: u128, cap: u128, trader: u64) -> (r:
    Result<(), EngineError>)
    ensures
        match r {
            Err(e) => {
                &&& e == EngineError::BaseAssetHoldingCapExceeded
                &&& cap != 0
                &&& size > cap
                &&& !store.spec_whitelisted(trader)
            },
            Ok(()) => !(cap != 0 && size > cap && !store.spec_whitelisted(trader)),
        },
{
    if cap != 0 && size > cap && !store.is_whitelisted(trader) {
        return Err(EngineError::BaseAssetHoldingCapExceeded);
    }
    Ok(())
}

/// Discards the staged swap intent, the sent-funds record and the
/// recorded liquidator: cancellation of a two-phase operation whose
/// collaborator round-trip failed. Deterministic and total: after it, no
/// pending intent remains staged.
pub fn rollback_swap(store: &mut EngineStorage)
    requires
        old(store).inv(),
    ensures
        final(store).inv(),
        final(store).tmp_swap is None,
        final(store).tmp_liquidator is None,
        final(store).sent_funds is None,
        final(store).config == old(store).config,
        final(store).state == old(store).state,
        final(store).positions@ == old(store).positions@,
        final(store).vamm_maps@ == old(store).vamm_maps@,
        final(store).whitelist@ == old(store).whitelist@,
{
    store.remove_tmp_swap();
    store.remove_tmp_liquidator();
    store.remove_sent_funds();
}

/// A fee in the engine's scale: `amount * ratio / scale`.
pub open spec fn spec_fee(amount: u128, ratio: u128, decimals: u128) -> int {
    (amount * ratio) as int / (decimals as int)
}

fn compute_fee(amount: u128, ratio: u128, decimals: u128) -> (r: u128)
    requires
        amount <= MAX_AMOUNT,
        ratio <= decimals,
        1 <= decimals <= crate::types::MAX_SCALE,
    ensures
        r == spec_fee(amount, ratio, decimals),
        r <= amount,
{
    proof {
        crate::integer::lemma_mul_le(amount, ratio, MAX_AMOUNT, crate::types::MAX_SCALE);
        assert((amount * ratio) as int / (decimals as int) <= amount) by (nonlinear_arith)
            requires
                ratio <= decimals,
                1 <= decimals,
                amount >= 0,
        ;
    }
    (amount * ratio) / decimals
}

/// The position an increase settlement commits: size grown by the
/// realized base, margin re-settled with the staged deposit, notional
/// grown by the staged trade notional, checkpoint advanced.
pub open spec fn spec_increase_position(
    store: EngineStorage,
    swap: TmpSwapInfo,
    block_height: u64,
    output: u128,
) -> Position {
    let position = spec_get_position(store, swap.vamm, swap.trader, swap.side, block_height);
    let new_size = position.size.as_int() + (if swap.side == Side::Buy {
        output as int
    } else {
        -(output as int)
    });
    Position {
        direction: if swap.side == Side::Buy {
            Direction::AddToAmm
        } else {
            Direction::RemoveFromAmm
        },
        size: crate::integer::int_to_integer(new_size),
        margin: spec_remain_margin(store, position, swap.margin_amount as int) as u128,
        notional: (position.notional + swap.open_notional) as u128,
        last_updated_premium_fraction: store.spec_latest_premium_fraction(swap.vamm),
        block_number: block_height,
        ..position
    }
}

/// The validation ladder of `increase_position_reply`.
pub open spec fn spec_increase_validate(
    store: EngineStorage,
    block_height: u64,
    input: u128,
    output: u128,
    toll_ratio: u128,
    spread_ratio: u128,
    base_asset_cap: u128,
    open_interest_cap: u128,
) -> Option<EngineError> {
    if store.tmp_swap is None {
        Some(EngineError::NoStagedIntent)
    } else {
        let swap = store.tmp_swap->0;
        let position = spec_get_position(store, swap.vamm, swap.trader, swap.side, block_height);
        let committed = spec_increase_position(store, swap, block_height, output);
        if output == 0 {
            Some(EngineError::InvalidSettlement)
        } else if input > MAX_AMOUNT || output > MAX_AMOUNT {
            Some(EngineError::AmountOutOfRange)
        } else if !spec_is_increase(position, swap.side) {
            Some(EngineError::InvalidSettlement)
        } else if committed.size.value > MAX_AMOUNT {
            Some(EngineError::AmountOutOfRange)
        } else if spec_remain_margin(store, position, swap.margin_amount as int) > MAX_AMOUNT {
            Some(EngineError::AmountOutOfRange)
        } else if position.notional + swap.open_notional > MAX_AMOUNT {
            Some(EngineError::AmountOutOfRange)
        } else if base_asset_cap != 0 && committed.size.value > base_asset_cap
            && !store.spec_whitelisted(swap.trader) {
            Some(EngineError::BaseAssetHoldingCapExceeded)
        } else if !swap.fees_paid && store.config.eligible_collateral is NativeToken
            && store.sent_funds is None {
            Some(EngineError::NoSentFunds)
        } else if !swap.fees_paid && store.config.eligible_collateral is NativeToken
            && store.sent_funds->0.asset.amount != spec_increase_required(
            store,
            swap,
            toll_ratio,
            spread_ratio,
        ) {
            Some(
                if store.sent_funds->0.asset.amount > spec_increase_required(
                    store,
                    swap,
                    toll_ratio,
                    spread_ratio,
                ) {
                    EngineError::SentFundsExcessive
                } else {
                    EngineError::SentFundsInsufficient
                },
            )
        } else if spec_open_interest_blocked(
            store,
            Integer { negative: false, value: swap.open_notional },
            open_interest_cap,
            swap.trader,
        ) {
            Some(EngineError::OpenInterestCapExceeded)
        } else {
            None
        }
    }
}

/// Native funds an increase requires: the staged margin plus both fees.
pub open spec fn spec_increase_required(
    store: EngineStorage,
    swap: TmpSwapInfo,
    toll_ratio: u128,
    spread_ratio: u128,
) -> int {
    swap.margin_amount + spec_trade_fee(store, swap, toll_ratio) + spec_trade_fee(
        store,
        swap,
        spread_ratio,
    )
}

/// A fee of a trade settlement: charged on the traded notional, once per
/// physical trade (a chained reversal leg pays nothing).
pub open spec fn spec_trade_fee(store: EngineStorage, swap: TmpSwapInfo, ratio: u128) -> int {
    if swap.fees_paid {
        0
    } else {
        spec_fee(swap.open_notional, ratio, store.config.decimals)
    }
}

/// Settles a confirmed increase: folds the realized base into the size,
/// settles funding and deposits the staged margin, grows the cost basis
/// by the traded notional, enforces both capacity caps (bypassable only
/// for whitelisted traders), socializes bad debt, and clears the staged
/// intent. `input`/`output` are the quote spent and base received as the
/// market reported them; `toll_ratio` and `spread_ratio` the market's fee
/// ratios; the caps the market's configured limits. On any error nothing
/// is persisted.
pub fn increase_position_reply(
    store: &mut EngineStorage,
    block_height: u64,
    input: u128,
    output: u128,
    toll_ratio: u128,
    spread_ratio: u128,
    base_asset_cap: u128,
    open_interest_cap: u128,
) -> (r: Result<SettlementReceipt, EngineError>)
    requires
        old(store).inv(),
        toll_ratio <= old(store).config.decimals,
        spread_ratio <= old(store).config.decimals,
        old(store).state.open_interest_notional + MAX_AMOUNT <= u128::MAX,
    ensures
        final(store).inv(),
        match r {
            Err(e) => {
                &&& spec_increase_validate(
                    *old(store),
                    block_height,
                    input,
                    output,
                    toll_ratio,
                    spread_ratio,
                    base_asset_cap,
                    open_interest_cap,
                ) == Some(e)
                &&& *final(store) == *old(store)
            },
            Ok(receipt) => {
                &&& spec_increase_validate(
                    *old(store),
                    block_height,
                    input,
                    output,
                    toll_ratio,
                    spread_ratio,
                    base_asset_cap,
                    open_interest_cap,
                ) is None
                &&& {
                    let swap = old(store).tmp_swap->0;
                    let position = spec_get_position(
                        *old(store),
                        swap.vamm,
                        swap.trader,
                        swap.side,
                        block_height,
                    );
                    let committed = spec_increase_position(*old(store), swap, block_height, output);
                    let bad_debt = spec_bad_debt(*old(store), position, swap.margin_amount as int);
                    &&& final(store).spec_position(swap.vamm, swap.trader) == committed
                    &&& forall|v: u64, t: u64|
                        crate::storage::pos_key(v, t) != crate::storage::pos_key(
                            swap.vamm,
                            swap.trader,
                        ) ==> #[trigger] final(store).spec_position(v, t) == old(
                            store,
                        ).spec_position(v, t)
                    &&& final(store).state.open_interest_notional == spec_updated_open_interest(
                        *old(store),
                        Integer { negative: false, value: swap.open_notional },
                    )
                    &&& final(store).state.prepaid_bad_debt == (if old(
                        store,
                    ).state.prepaid_bad_debt > bad_debt {
                        old(store).state.prepaid_bad_debt - bad_debt
                    } else {
                        0
                    })
                    &&& final(store).state.pause == old(store).state.pause
                    &&& final(store).tmp_swap is None
                    &&& final(store).tmp_liquidator is None
                    &&& final(store).sent_funds is None
                    &&& final(store).config == old(store).config
                    &&& final(store).vamm_maps@ == old(store).vamm_maps@
                    &&& final(store).whitelist@ == old(store).whitelist@
                    &&& receipt == (SettlementReceipt {
                        margin_to_vault: if swap.fees_paid {
                            Integer { negative: false, value: 0 }
                        } else {
                            Integer { negative: false, value: swap.margin_amount }
                        },
                        toll_to_fee_pool: spec_trade_fee(*old(store), swap, toll_ratio) as u128,
                        spread_to_insurance: spec_trade_fee(*old(store), swap, spread_ratio) as u128,
                        fee_to_liquidator: 0,
                        withdraw_from_insurance: (if old(store).state.prepaid_bad_debt > bad_debt {
                            0int
                        } else {
                            bad_debt - old(store).state.prepaid_bad_debt
                        }) as u128,
                        bad_debt: bad_debt as u128,
                    })
                }
            },
        },
{
    let swap = match store.read_tmp_swap() {
        Ok(s) => s,
        Err(e) => {
            return Err(e);
        },
    };
    proof {
        assert(swap.wf()) by {
            assert(old(store).inv());
        }
    }
    if output == 0 {
        return Err(EngineError::InvalidSettlement);
    }
    if input > MAX_AMOUNT || output > MAX_AMOUNT {
        return Err(EngineError::AmountOutOfRange);
    }

    let position = get_position(store, swap.vamm, swap.trader, &swap.side, block_height);

    let is_increase = position.size.is_zero() || (matches!(
        position.direction,
        Direction::AddToAmm,
    ) && matches!(swap.side, Side::Buy)) || (matches!(
        position.direction,
        Direction::RemoveFromAmm,
    ) && matches!(swap.side, Side::Sell));
    if !is_increase {
        return Err(EngineError::InvalidSettlement);
    }

    let signed_output = if matches!(swap.side, Side::Buy) {
        Integer::new_positive(output)
    } else {
        Integer::new_negative(output)
    };
    let new_size = crate::integer::expect_some(position.size.checked_add(signed_output));
    if new_size.value > MAX_AMOUNT {
        return Err(EngineError::AmountOutOfRange);
    }

    let remain = calc_remain_margin_with_funding_payment(
        store,
        position,
        Integer::new_positive(swap.margin_amount),
    );
    if remain.margin > MAX_AMOUNT {
        return Err(EngineError::AmountOutOfRange);
    }
    if swap.open_notional > MAX_AMOUNT - position.notional {
        return Err(EngineError::AmountOutOfRange);
    }

    match check_base_asset_holding_cap(store, new_size.value, base_asset_cap, swap.trader) {
        Ok(()) => (),
        Err(e) => {
            return Err(e);
        },
    }

    let toll = if swap.fees_paid {
        0
    } else {
        compute_fee(swap.open_notional, toll_ratio, store.config.decimals)
    };
    let spread = if swap.fees_paid {
        0
    } else {
        compute_fee(swap.open_notional, spread_ratio, store.config.decimals)
    };

    // a chained reversal leg has no sent-funds record of its own: the
    // net transfer was already settled by the reversal's receipt
    if !swap.fees_paid && matches!(
        store.config.eligible_collateral,
        crate::types::AssetKind::NativeToken { .. },
    ) {
        let funds = match store.read_sent_funds() {
            Ok(f) => f,
            Err(e) => {
                return Err(e);
            },
        };
        let required = swap.margin_amount + toll + spread;
        if funds.asset.amount > required {
            return Err(EngineError::SentFundsExcessive);
        }
        if funds.asset.amount < required {
            return Err(EngineError::SentFundsInsufficient);
        }
    }

    match update_open_interest_notional(
        store,
        Integer::new_positive(swap.open_notional),
        open_interest_cap,
        swap.trader,
    ) {
        Ok(()) => (),
        Err(e) => {
            return Err(e);
        },
    }

    let committed = Position {
        direction: side_to_direction_owned(swap.side),
        size: new_size,
        margin: remain.margin,
        notional: position.notional + swap.open_notional,
        last_updated_premium_fraction: remain.latest_premium_fraction,
        block_number: block_height,
        ..position
    };
    store.store_position(&committed);

    let withdraw = realize_bad_debt(store, remain.bad_debt);

    store.remove_tmp_swap();
    store.remove_tmp_liquidator();
    store.remove_sent_funds();

    let margin_to_vault = if swap.fees_paid {
        Integer::zero()
    } else {
        Integer::new_positive(swap.margin_amount)
    };

    Ok(
        SettlementReceipt {
            margin_to_vault,
            toll_to_fee_pool: toll,
            spread_to_insurance: spread,
            fee_to_liquidator: 0,
            withdraw_from_insurance: withdraw,
            bad_debt: remain.bad_debt,
        },
    )
}

fn side_to_direction_owned(side: Side) -> (r: Direction)
    ensures
        r == (if side == Side::Buy {
            Direction::AddToAmm
        } else {
            Direction::RemoveFromAmm
        }),
{
    match side {
        Side::Buy => Direction::AddToAmm,
        Side::Sell => Direction::RemoveFromAmm,
    }
}

/// The validation ladder shared by the full-close and full-liquidation
/// settlements.
pub open spec fn spec_close_validate(
    store: EngineStorage,
    input: u128,
    output: u128,
) -> Option<EngineError> {
    if store.tmp_swap is None {
        Some(EngineError::NoStagedIntent)
    } else {
        let swap = store.tmp_swap->0;
        let position = store.spec_position(swap.vamm, swap.trader);
        if position.size.as_int() == 0 {
            Some(EngineError::InvalidSettlement)
        } else if input != position.size.value {
            Some(EngineError::InvalidSettlement)
        } else if output > MAX_AMOUNT {
            Some(EngineError::AmountOutOfRange)
        } else if spec_remain_margin(
            store,
            position,
            crate::margin::spec_pnl(position, output as int),
        ) > MAX_AMOUNT {
            Some(EngineError::AmountOutOfRange)
        } else {
            None
        }
    }
}

/// Margin and bad debt of a fully unwound position, after realizing the
/// whole profit and loss against the quote the market returned and
/// settling funding.
pub open spec fn spec_close_remain_margin(store: EngineStorage, position: Position, output: u128) -> int {
    spec_remain_margin(store, position, crate::margin::spec_pnl(position, output as int))
}

pub open spec fn spec_close_bad_debt(store: EngineStorage, position: Position, output: u128) -> int {
    spec_bad_debt(store, position, crate::margin::spec_pnl(position, output as int))
}

/// Settles a confirmed full close: realizes the whole profit and loss
/// into the margin, pays the remainder out to the trader, charges toll
/// and spread on the realized quote, socializes bad debt, resets the
/// position in place, shrinks the open interest by the closed cost
/// basis, and clears the staged intent. `input` is the base unwound
/// (which must equal the position's full size), `output` the quote
/// received. On any error nothing is persisted.
pub fn close_position_reply(
    store: &mut EngineStorage,
    block_height: u64,
    input: u128,
    output: u128,
    toll_ratio: u128,
    spread_ratio: u128,
) -> (r: Result<SettlementReceipt, EngineError>)
    requires
        old(store).inv(),
        toll_ratio <= old(store).config.decimals,
        spread_ratio <= old(store).config.decimals,
    ensures
        final(store).inv(),
        match r {
            Err(e) => {
                &&& spec_close_validate(*old(store), input, output) == Some(e)
                &&& *final(store) == *old(store)
            },
            Ok(receipt) => {
                &&& spec_close_validate(*old(store), input, output) is None
                &&& {
                    let swap = old(store).tmp_swap->0;
                    let position = old(store).spec_position(swap.vamm, swap.trader);
                    let remain_margin = spec_close_remain_margin(*old(store), position, output);
                    let bad_debt = spec_close_bad_debt(*old(store), position, output);
                    &&& final(store).spec_position(swap.vamm, swap.trader) == (Position {
                        size: Integer { negative: false, value: 0 },
                        margin: 0,
                        notional: 0,
                        last_updated_premium_fraction: Integer { negative: false, value: 0 },
                        block_number: block_height,
                        ..position
                    })
                    &&& forall|v: u64, t: u64|
                        crate::storage::pos_key(v, t) != crate::storage::pos_key(
                            swap.vamm,
                            swap.trader,
                        ) ==> #[trigger] final(store).spec_position(v, t) == old(
                            store,
                        ).spec_position(v, t)
                    &&& final(store).state.open_interest_notional == spec_updated_open_interest(
                        *old(store),
                        crate::integer::int_to_integer(-(position.notional as int)),
                    )
                    &&& final(store).state.prepaid_bad_debt == (if old(
                        store,
                    ).state.prepaid_bad_debt > bad_debt {
                        old(store).state.prepaid_bad_debt - bad_debt
                    } else {
                        0
                    })
                    &&& final(store).state.pause == old(store).state.pause
                    &&& final(store).tmp_swap is None
                    &&& final(store).tmp_liquidator is None
                    &&& final(store).sent_funds is None
                    &&& final(store).config == old(store).config
                    &&& final(store).vamm_maps@ == old(store).vamm_maps@
                    &&& final(store).whitelist@ == old(store).whitelist@
                    &&& receipt == (SettlementReceipt {
                        margin_to_vault: crate::integer::int_to_integer(-remain_margin),
                        toll_to_fee_pool: spec_fee(output, toll_ratio, old(store).config.decimals)
                            as u128,
                        spread_to_insurance: spec_fee(
                            output,
                            spread_ratio,
                            old(store).config.decimals,
                        ) as u128,
                        fee_to_liquidator: 0,
                        withdraw_from_insurance: (if old(store).state.prepaid_bad_debt > bad_debt {
                            0int
                        } else {
                            bad_debt - old(store).state.prepaid_bad_debt
                        }) as u128,
                        bad_debt: bad_debt as u128,
                    })
                }
            },
        },
{
    let swap = match store.read_tmp_swap() {
        Ok(s) => s,
        Err(e) => {
            return Err(e);
        },
    };
    proof {
        assert(swap.wf()) by {
            assert(old(store).inv());
        }
    }
    let position = store.read_position(swap.vamm, swap.trader);
    if position.size.value == 0 {
        return Err(EngineError::InvalidSettlement);
    }
    proof {
        assert(position.wf() && position.vamm != 0 && position.trader != 0) by {
            assert(old(store).inv());
        }
    }
    if input != position.size.value {
        return Err(EngineError::InvalidSettlement);
    }
    if output > MAX_AMOUNT {
        return Err(EngineError::AmountOutOfRange);
    }

    let pnl = if matches!(position.direction, Direction::AddToAmm) {
        crate::integer::expect_some(
            Integer::new_positive(output).checked_sub(Integer::new_positive(position.notional)),
        )
    } else {
        crate::integer::expect_some(
            Integer::new_positive(position.notional).checked_sub(Integer::new_positive(output)),
        )
    };
    let remain = calc_remain_margin_with_funding_payment(store, position, pnl);
    if remain.margin > MAX_AMOUNT {
        return Err(EngineError::AmountOutOfRange);
    }

    let toll = compute_fee(output, toll_ratio, store.config.decimals);
    let spread = compute_fee(output, spread_ratio, store.config.decimals);

    let cleared = crate::types::clear_position(block_height, position);
    store.store_position(&cleared);

    match update_open_interest_notional(
        store,
        Integer::new_negative(position.notional),
        0,
        swap.trader,
    ) {
        Ok(()) => (),
        Err(_) => (),
    }

    let withdraw = realize_bad_debt(store, remain.bad_debt);

    store.remove_tmp_swap();
    store.remove_tmp_liquidator();
    store.remove_sent_funds();

    Ok(
        SettlementReceipt {
            margin_to_vault: Integer::new_negative(remain.margin),
            toll_to_fee_pool: toll,
            spread_to_insurance: spread,
            fee_to_liquidator: 0,
            withdraw_from_insurance: withdraw,
            bad_debt: remain.bad_debt,
        },
    )
}

/// The liquidation fee on a closed notional, and how it splits into the
/// part covered by the remaining margin and the shortfall that becomes
/// bad debt.
pub open spec fn spec_liquidation_fee(store: EngineStorage, output: u128) -> int {
    spec_fee(output, store.config.liquidation_fee, store.config.decimals)
}

/// The validation ladder of `liquidate_reply`: the close ladder, plus a
/// recorded liquidator.
pub open spec fn spec_liquidate_reply_validate(
    store: EngineStorage,
    input: u128,
    output: u128,
) -> Option<EngineError> {
    if store.tmp_liquidator is None {
        Some(EngineError::Unauthorized)
    } else {
        spec_close_validate(store, input, output)
    }
}

/// Settles a confirmed full liquidation: the full close, except that the
/// liquidation fee (on the realized quote) is paid to the recorded
/// liquidator out of the remaining margin — any shortfall becomes bad
/// debt — the remainder is paid to the trader, no toll or spread is
/// charged, and the market enters restriction mode for the current
/// block. On any error nothing is persisted.
pub fn liquidate_reply(store: &mut EngineStorage, block_height: u64, input: u128, output: u128) -> (r:
    Result<SettlementReceipt, EngineError>)
    requires
        old(store).inv(),
    ensures
        final(store).inv(),
        match r {
            Err(e) => {
                &&& spec_liquidate_reply_validate(*old(store), input, output) == Some(e)
                &&& *final(store) == *old(store)
            },
            Ok(receipt) => {
                &&& spec_liquidate_reply_validate(*old(store), input, output) is None
                &&& {
                    let swap = old(store).tmp_swap->0;
                    let position = old(store).spec_position(swap.vamm, swap.trader);
                    let remain_margin = spec_close_remain_margin(*old(store), position, output);
                    let fee = spec_liquidation_fee(*old(store), output);
                    let payout = if remain_margin >= fee {
                        remain_margin - fee
                    } else {
                        0
                    };
                    let fee_shortfall = if fee > remain_margin {
                        fee - remain_margin
                    } else {
                        0
                    };
                    let bad_debt = spec_close_bad_debt(*old(store), position, output)
                        + fee_shortfall;
                    &&& final(store).spec_position(swap.vamm, swap.trader) == (Position {
                        size: Integer { negative: false, value: 0 },
                        margin: 0,
                        notional: 0,
                        last_updated_premium_fraction: Integer { negative: false, value: 0 },
                        block_number: block_height,
                        ..position
                    })
                    &&& forall|v: u64, t: u64|
                        crate::storage::pos_key(v, t) != crate::storage::pos_key(
                            swap.vamm,
                            swap.trader,
                        ) ==> #[trigger] final(store).spec_position(v, t) == old(
                            store,
                        ).spec_position(v, t)
                    &&& final(store).state.open_interest_notional == spec_updated_open_interest(
                        *old(store),
                        crate::integer::int_to_integer(-(position.notional as int)),
                    )
                    &&& final(store).state.prepaid_bad_debt == (if old(
                        store,
                    ).state.prepaid_bad_debt > bad_debt {
                        (old(store).state.prepaid_bad_debt - bad_debt) as int
                    } else {
                        0int
                    })
                    &&& final(store).state.pause == old(store).state.pause
                    &&& final(store).spec_last_restriction_block(swap.vamm) == block_height
                    &&& final(store).spec_premium_fractions(swap.vamm) == old(
                        store,
                    ).spec_premium_fractions(swap.vamm)
                    &&& final(store).tmp_swap is None
                    &&& final(store).tmp_liquidator is None
                    &&& final(store).sent_funds is None
                    &&& final(store).config == old(store).config
                    &&& final(store).whitelist@ == old(store).whitelist@
                    &&& receipt == (SettlementReceipt {
                        margin_to_vault: crate::integer::int_to_integer(-payout),
                        toll_to_fee_pool: 0,
                        spread_to_insurance: 0,
                        fee_to_liquidator: fee as u128,
                        withdraw_from_insurance: (if old(store).state.prepaid_bad_debt > bad_debt {
                            0int
                        } else {
                            bad_debt - old(store).state.prepaid_bad_debt
                        }) as u128,
                        bad_debt: bad_debt as u128,
                    })
                }
            },
        },
{
    match store.read_tmp_liquidator() {
        Ok(_) => (),
        Err(e) => {
            return Err(e);
        },
    }
    let swap = match store.read_tmp_swap() {
        Ok(s) => s,
        Err(e) => {
            return Err(e);
        },
    };
    proof {
        assert(swap.wf()) by {
            assert(old(store).inv());
        }
    }
    let position = store.read_position(swap.vamm, swap.trader);
    if position.size.value == 0 {
        return Err(EngineError::InvalidSettlement);
    }
    proof {
        assert(position.wf() && position.vamm != 0 && position.trader != 0) by {
            assert(old(store).inv());
        }
    }
    if input != position.size.value {
        return Err(EngineError::InvalidSettlement);
    }
    if output > MAX_AMOUNT {
        return Err(EngineError::AmountOutOfRange);
    }

    let pnl = if matches!(position.direction, Direction::AddToAmm) {
        crate::integer::expect_some(
            Integer::new_positive(output).checked_sub(Integer::new_positive(position.notional)),
        )
    } else {
        crate::integer::expect_some(
            Integer::new_positive(position.notional).checked_sub(Integer::new_positive(output)),
        )
    };
    let remain = calc_remain_margin_with_funding_payment(store, position, pnl);
    if remain.margin > MAX_AMOUNT {
        return Err(EngineError::AmountOutOfRange);
    }

    let fee = compute_fee(output, store.config.liquidation_fee, store.config.decimals);
    let payout = if remain.margin >= fee {
        remain.margin - fee
    } else {
        0
    };
    let fee_shortfall = if fee > remain.margin {
        fee - remain.margin
    } else {
        0
    };
    proof {
        crate::margin::lemma_funding_payment_bound(
            old(store).spec_latest_premium_fraction(position.vamm),
            position.last_updated_premium_fraction,
            position.size,
            old(store).config.decimals,
        );
    }
    let bad_debt = remain.bad_debt + fee_shortfall;

    let cleared = crate::types::clear_position(block_height, position);
    store.store_position(&cleared);

    match update_open_interest_notional(
        store,
        Integer::new_negative(position.notional),
        0,
        swap.trader,
    ) {
        Ok(()) => (),
        Err(_) => (),
    }

    let withdraw = realize_bad_debt(store, bad_debt);

    store.enter_restriction_mode(swap.vamm, block_height);

    store.remove_tmp_swap();
    store.remove_tmp_liquidator();
    store.remove_sent_funds();

    Ok(
        SettlementReceipt {
            margin_to_vault: Integer::new_negative(payout),
            toll_to_fee_pool: 0,
            spread_to_insurance: 0,
            fee_to_liquidator: fee,
            withdraw_from_insurance: withdraw,
            bad_debt,
        },
    )
}

/// Profit and loss realized by a reduction: the staged unrealized profit
/// and loss, prorated by the traded notional over the staged position
/// notional.
pub open spec fn spec_decrease_realized_pnl(swap: TmpSwapInfo) -> int {
    crate::integer::div_trunc(
        swap.unrealized_pnl.as_int() * swap.open_notional,
        swap.position_notional as int,
    )
}

/// Cost basis remaining after a reduction: the market value that stays
/// open minus the unrealized profit (or plus the unrealized loss) that
/// stays with it.
pub open spec fn spec_decrease_basis_after(store: EngineStorage, swap: TmpSwapInfo) -> int {
    let position = store.spec_position(swap.vamm, swap.trader);
    let remaining_market = swap.position_notional - swap.open_notional;
    let pnl_after = swap.unrealized_pnl.as_int() - spec_decrease_realized_pnl(swap);
    if position.direction == Direction::AddToAmm {
        remaining_market - pnl_after
    } else {
        remaining_market + pnl_after
    }
}

/// The validation ladder shared by the decrease and partial-close
/// settlements.
pub open spec fn spec_decrease_validate(
    store: EngineStorage,
    input: u128,
    output: u128,
) -> Option<EngineError> {
    if store.tmp_swap is None {
        Some(EngineError::NoStagedIntent)
    } else {
        let swap = store.tmp_swap->0;
        let position = store.spec_position(swap.vamm, swap.trader);
        if position.size.as_int() == 0 {
            Some(EngineError::InvalidSettlement)
        } else if input > MAX_AMOUNT || output > MAX_AMOUNT {
            Some(EngineError::AmountOutOfRange)
        } else if output >= position.size.value || output == 0 {
            Some(EngineError::InvalidSettlement)
        } else if spec_is_increase(position, swap.side) {
            Some(EngineError::InvalidSettlement)
        } else if swap.position_notional == 0 || swap.open_notional > swap.position_notional {
            Some(EngineError::InvalidSettlement)
        } else if !(0 <= spec_decrease_basis_after(store, swap) <= MAX_AMOUNT) {
            Some(EngineError::AmountOutOfRange)
        } else if spec_remain_margin(store, position, spec_decrease_realized_pnl(swap))
            > MAX_AMOUNT {
            Some(EngineError::AmountOutOfRange)
        } else {
            None
        }
    }
}

/// Settles a confirmed reduction (an opposite-side trade smaller than
/// the open exposure, or the partial leg of a close): realizes the
/// prorated share of the staged profit and loss into the margin, shrinks
/// the size by the realized base and the cost basis to what stays open,
/// charges toll and spread on the traded notional, socializes bad debt,
/// shrinks open interest by the removed basis, and clears the staged
/// intent. `input` is the quote traded, `output` the base removed. On
/// any error nothing is persisted.
pub fn decrease_position_reply(
    store: &mut EngineStorage,
    block_height: u64,
    input: u128,
    output: u128,
    toll_ratio: u128,
    spread_ratio: u128,
) -> (r: Result<SettlementReceipt, EngineError>)
    requires
        old(store).inv(),
        toll_ratio <= old(store).config.decimals,
        spread_ratio <= old(store).config.decimals,
        old(store).state.open_interest_notional + 2 * MAX_AMOUNT <= u128::MAX,
    ensures
        final(store).inv(),
        match r {
            Err(e) => {
                &&& spec_decrease_validate(*old(store), input, output) == Some(e)
                &&& *final(store) == *old(store)
            },
            Ok(receipt) => {
                &&& spec_decrease_validate(*old(store), input, output) is None
                &&& {
                    let swap = old(store).tmp_swap->0;
                    let position = old(store).spec_position(swap.vamm, swap.trader);
                    let realized_pnl = spec_decrease_realized_pnl(swap);
                    let basis_after = spec_decrease_basis_after(*old(store), swap);
                    let bad_debt = spec_bad_debt(*old(store), position, realized_pnl);
                    let new_size = position.size.as_int() + (if swap.side == Side::Buy {
                        output as int
                    } else {
                        -(output as int)
                    });
                    &&& final(store).spec_position(swap.vamm, swap.trader) == (Position {
                        size: crate::integer::int_to_integer(new_size),
                        margin: spec_remain_margin(*old(store), position, realized_pnl) as u128,
                        notional: basis_after as u128,
                        last_updated_premium_fraction: old(store).spec_latest_premium_fraction(
                            swap.vamm,
                        ),
                        block_number: block_height,
                        ..position
                    })
                    &&& forall|v: u64, t: u64|
                        crate::storage::pos_key(v, t) != crate::storage::pos_key(
                            swap.vamm,
                            swap.trader,
                        ) ==> #[trigger] final(store).spec_position(v, t) == old(
                            store,
                        ).spec_position(v, t)
                    &&& final(store).state.open_interest_notional == spec_updated_open_interest(
                        *old(store),
                        crate::integer::int_to_integer(basis_after - position.notional),
                    )
                    &&& final(store).state.prepaid_bad_debt == (if old(
                        store,
                    ).state.prepaid_bad_debt > bad_debt {
                        old(store).state.prepaid_bad_debt - bad_debt
                    } else {
                        0
                    })
                    &&& final(store).state.pause == old(store).state.pause
                    &&& final(store).tmp_swap is None
                    &&& final(store).tmp_liquidator is None
                    &&& final(store).sent_funds is None
                    &&& final(store).config == old(store).config
                    &&& final(store).vamm_maps@ == old(store).vamm_maps@
                    &&& final(store).whitelist@ == old(store).whitelist@
                    &&& receipt == (SettlementReceipt {
                        margin_to_vault: Integer { negative: false, value: 0 },
                        toll_to_fee_pool: spec_trade_fee(*old(store), swap, toll_ratio) as u128,
                        spread_to_insurance: spec_trade_fee(*old(store), swap, spread_ratio)
                            as u128,
                        fee_to_liquidator: 0,
                        withdraw_from_insurance: (if old(store).state.prepaid_bad_debt > bad_debt {
                            0int
                        } else {
                            bad_debt - old(store).state.prepaid_bad_debt
                        }) as u128,
                        bad_debt: bad_debt as u128,
                    })
                }
            },
        },
{
    let swap = match store.read_tmp_swap() {
        Ok(s) => s,
        Err(e) => {
            return Err(e);
        },
    };
    proof {
        assert(swap.wf()) by {
            assert(old(store).inv());
        }
    }
    let position = store.read_position(swap.vamm, swap.trader);
    if position.size.value == 0 {
        return Err(EngineError::InvalidSettlement);
    }
    proof {
        assert(position.wf() && position.vamm != 0 && position.trader != 0) by {
            assert(old(store).inv());
        }
    }
    if input > MAX_AMOUNT || output > MAX_AMOUNT {
        return Err(EngineError::AmountOutOfRange);
    }
    if output >= position.size.value || output == 0 {
        return Err(EngineError::InvalidSettlement);
    }
    let is_increase = (matches!(position.direction, Direction::AddToAmm) && matches!(
        swap.side,
        Side::Buy,
    )) || (matches!(position.direction, Direction::RemoveFromAmm) && matches!(
        swap.side,
        Side::Sell,
    ));
    if is_increase {
        return Err(EngineError::InvalidSettlement);
    }
    if swap.position_notional == 0 || swap.open_notional > swap.position_notional {
        return Err(EngineError::InvalidSettlement);
    }

    proof {
        crate::integer::lemma_mul_le(
            swap.unrealized_pnl.value,
            swap.open_notional,
            MAX_AMOUNT,
            MAX_AMOUNT,
        );
    }
    let realized_pnl = crate::integer::expect_some(
        crate::integer::expect_some(
            swap.unrealized_pnl.checked_mul(Integer::new_positive(swap.open_notional)),
        ).checked_div(Integer::new_positive(swap.position_notional)),
    );
    let pnl_after = crate::integer::expect_some(swap.unrealized_pnl.checked_sub(realized_pnl));
    let remaining_market = Integer::new_positive(swap.position_notional - swap.open_notional);
    let basis_after_int = if matches!(position.direction, Direction::AddToAmm) {
        crate::integer::expect_some(remaining_market.checked_sub(pnl_after))
    } else {
        crate::integer::expect_some(remaining_market.checked_add(pnl_after))
    };
    if basis_after_int.is_negative() || basis_after_int.value > MAX_AMOUNT {
        return Err(EngineError::AmountOutOfRange);
    }

    let remain = calc_remain_margin_with_funding_payment(store, position, realized_pnl);
    if remain.margin > MAX_AMOUNT {
        return Err(EngineError::AmountOutOfRange);
    }

    let toll = if swap.fees_paid {
        0
    } else {
        compute_fee(swap.open_notional, toll_ratio, store.config.decimals)
    };
    let spread = if swap.fees_paid {
        0
    } else {
        compute_fee(swap.open_notional, spread_ratio, store.config.decimals)
    };

    let signed_output = if matches!(swap.side, Side::Buy) {
        Integer::new_positive(output)
    } else {
        Integer::new_negative(output)
    };
    let new_size = crate::integer::expect_some(position.size.checked_add(signed_output));

    let committed = Position {
        size: new_size,
        margin: remain.margin,
        notional: basis_after_int.value,
        last_updated_premium_fraction: remain.latest_premium_fraction,
        block_number: block_height,
        ..position
    };
    store.store_position(&committed);

    let basis_delta = crate::integer::expect_some(
        Integer::new_positive(position.notional).checked_sub(
            Integer::new_positive(basis_after_int.value),
        ),
    );
    match update_open_interest_notional(store, basis_delta.invert_sign(), 0, swap.trader) {
        Ok(()) => (),
        Err(_) => (),
    }

    let withdraw = realize_bad_debt(store, remain.bad_debt);

    store.remove_tmp_swap();
    store.remove_tmp_liquidator();
    store.remove_sent_funds();

    Ok(
        SettlementReceipt {
            margin_to_vault: Integer::zero(),
            toll_to_fee_pool: toll,
            spread_to_insurance: spread,
            fee_to_liquidator: 0,
            withdraw_from_insurance: withdraw,
            bad_debt: remain.bad_debt,
        },
    )
}

/// Profit and loss realized by a partial liquidation: the staged full
/// unrealized profit and loss, scaled by the partial-liquidation ratio.
pub open spec fn spec_partial_liq_realized_pnl(store: EngineStorage, swap: TmpSwapInfo) -> int {
    crate::integer::div_trunc(
        swap.unrealized_pnl.as_int() * store.config.partial_liquidation_ratio,
        store.config.decimals as int,
    )
}

/// Cost basis removed by a partial liquidation: the quote the unwind
/// fetched, less the profit (or plus the loss) realized on it.
pub open spec fn spec_partial_liq_basis_removed(
    store: EngineStorage,
    position: Position,
    swap: TmpSwapInfo,
    output: u128,
) -> int {
    if position.direction == Direction::AddToAmm {
        output - spec_partial_liq_realized_pnl(store, swap)
    } else {
        output + spec_partial_liq_realized_pnl(store, swap)
    }
}

/// The validation ladder of `partial_liquidation_reply`.
pub open spec fn spec_partial_liq_validate(
    store: EngineStorage,
    input: u128,
    output: u128,
) -> Option<EngineError> {
    if store.tmp_liquidator is None {
        Some(EngineError::Unauthorized)
    } else if store.tmp_swap is None {
        Some(EngineError::NoStagedIntent)
    } else {
        let swap = store.tmp_swap->0;
        let position = store.spec_position(swap.vamm, swap.trader);
        let fee = spec_fee(swap.open_notional, store.config.liquidation_fee, store.config.decimals);
        let delta = spec_partial_liq_realized_pnl(store, swap) - fee;
        if position.size.as_int() == 0 {
            Some(EngineError::InvalidSettlement)
        } else if input > MAX_AMOUNT || output > MAX_AMOUNT {
            Some(EngineError::AmountOutOfRange)
        } else if input >= position.size.value || input == 0 {
            Some(EngineError::InvalidSettlement)
        } else if !(0 <= spec_partial_liq_basis_removed(store, position, store.tmp_swap->0, output)
            <= position.notional) {
            Some(EngineError::AmountOutOfRange)
        } else if spec_remain_margin(store, position, delta) > MAX_AMOUNT {
            Some(EngineError::AmountOutOfRange)
        } else {
            None
        }
    }
}

/// Settles a confirmed partial liquidation: unwinds the realized base
/// (strictly less than the full size), realizes the scaled share of the
/// staged profit and loss less the liquidation fee into the margin, pays
/// the fee (on the partial notional) to the recorded liquidator,
/// socializes bad debt, shrinks the cost basis and the open interest by
/// the basis removed, puts the market in restriction mode, and clears
/// the staged intent. `input` is the base closed, `output` the quote
/// received. On any error nothing is persisted.
pub fn partial_liquidation_reply(
    store: &mut EngineStorage,
    block_height: u64,
    input: u128,
    output: u128,
) -> (r: Result<SettlementReceipt, EngineError>)
    requires
        old(store).inv(),
        old(store).state.open_interest_notional + 2 * MAX_AMOUNT <= u128::MAX,
    ensures
        final(store).inv(),
        match r {
            Err(e) => {
                &&& spec_partial_liq_validate(*old(store), input, output) == Some(e)
                &&& *final(store) == *old(store)
            },
            Ok(receipt) => {
                &&& spec_partial_liq_validate(*old(store), input, output) is None
                &&& {
                    let swap = old(store).tmp_swap->0;
                    let position = old(store).spec_position(swap.vamm, swap.trader);
                    let fee = spec_fee(
                        swap.open_notional,
                        old(store).config.liquidation_fee,
                        old(store).config.decimals,
                    );
                    let realized_pnl = spec_partial_liq_realized_pnl(*old(store), swap);
                    let delta = realized_pnl - fee;
                    let basis_removed = spec_partial_liq_basis_removed(
                        *old(store),
                        position,
                        swap,
                        output,
                    );
                    let bad_debt = spec_bad_debt(*old(store), position, delta);
                    let new_size = position.size.as_int() + (if position.size.as_int() > 0 {
                        -(input as int)
                    } else {
                        input as int
                    });
                    &&& final(store).spec_position(swap.vamm, swap.trader) == (Position {
                        size: crate::integer::int_to_integer(new_size),
                        margin: spec_remain_margin(*old(store), position, delta) as u128,
                        notional: (position.notional - basis_removed) as u128,
                        last_updated_premium_fraction: old(store).spec_latest_premium_fraction(
                            swap.vamm,
                        ),
                        block_number: block_height,
                        ..position
                    })
                    &&& forall|v: u64, t: u64|
                        crate::storage::pos_key(v, t) != crate::storage::pos_key(
                            swap.vamm,
                            swap.trader,
                        ) ==> #[trigger] final(store).spec_position(v, t) == old(
                            store,
                        ).spec_position(v, t)
                    &&& final(store).state.open_interest_notional == spec_updated_open_interest(
                        *old(store),
                        crate::integer::int_to_integer(-basis_removed),
                    )
                    &&& final(store).state.prepaid_bad_debt == (if old(
                        store,
                    ).state.prepaid_bad_debt > bad_debt {
                        old(store).state.prepaid_bad_debt - bad_debt
                    } else {
                        0
                    })
                    &&& final(store).state.pause == old(store).state.pause
                    &&& final(store).spec_last_restriction_block(swap.vamm) == block_height
                    &&& final(store).spec_premium_fractions(swap.vamm) == old(
                        store,
                    ).spec_premium_fractions(swap.vamm)
                    &&& final(store).tmp_swap is None
                    &&& final(store).tmp_liquidator is None
                    &&& final(store).sent_funds is None
                    &&& final(store).config == old(store).config
                    &&& final(store).whitelist@ == old(store).whitelist@
                    &&& receipt == (SettlementReceipt {
                        margin_to_vault: Integer { negative: false, value: 0 },
                        toll_to_fee_pool: 0,
                        spread_to_insurance: 0,
                        fee_to_liquidator: fee as u128,
                        withdraw_from_insurance: (if old(store).state.prepaid_bad_debt > bad_debt {
                            0int
                        } else {
                            bad_debt - old(store).state.prepaid_bad_debt
                        }) as u128,
                        bad_debt: bad_debt as u128,
                    })
                }
            },
        },
{
    match store.read_tmp_liquidator() {
        Ok(_) => (),
        Err(e) => {
            return Err(e);
        },
    }
    let swap = match store.read_tmp_swap() {
        Ok(s) => s,
        Err(e) => {
            return Err(e);
        },
    };
    proof {
        assert(swap.wf()) by {
            assert(old(store).inv());
        }
    }
    let position = store.read_position(swap.vamm, swap.trader);
    if position.size.value == 0 {
        return Err(EngineError::InvalidSettlement);
    }
    proof {
        assert(position.wf() && position.vamm != 0 && position.trader != 0) by {
            assert(old(store).inv());
        }
    }
    if input > MAX_AMOUNT || output > MAX_AMOUNT {
        return Err(EngineError::AmountOutOfRange);
    }
    if input >= position.size.value || input == 0 {
        return Err(EngineError::InvalidSettlement);
    }

    proof {
        crate::integer::lemma_mul_le(
            swap.unrealized_pnl.value,
            store.config.partial_liquidation_ratio,
            MAX_AMOUNT,
            crate::types::MAX_SCALE,
        );
    }
    let realized_pnl = crate::integer::expect_some(
        crate::integer::expect_some(
            swap.unrealized_pnl.checked_mul(
                Integer::new_positive(store.config.partial_liquidation_ratio),
            ),
        ).checked_div(Integer::new_positive(store.config.decimals)),
    );
    let basis_removed_int = if matches!(position.direction, Direction::AddToAmm) {
        crate::integer::expect_some(Integer::new_positive(output).checked_sub(realized_pnl))
    } else {
        crate::integer::expect_some(Integer::new_positive(output).checked_add(realized_pnl))
    };
    if basis_removed_int.is_negative() || basis_removed_int.value > position.notional {
        return Err(EngineError::AmountOutOfRange);
    }

    let fee = compute_fee(swap.open_notional, store.config.liquidation_fee, store.config.decimals);
    let delta = crate::integer::expect_some(realized_pnl.checked_sub(Integer::new_positive(fee)));
    let remain = calc_remain_margin_with_funding_payment(store, position, delta);
    if remain.margin > MAX_AMOUNT {
        return Err(EngineError::AmountOutOfRange);
    }

    let signed_input = if position.size.gt(&Integer::zero()) {
        Integer::new_negative(input)
    } else {
        Integer::new_positive(input)
    };
    let new_size = crate::integer::expect_some(position.size.checked_add(signed_input));

    let committed = Position {
        size: new_size,
        margin: remain.margin,
        notional: position.notional - basis_removed_int.value,
        last_updated_premium_fraction: remain.latest_premium_fraction,
        block_number: block_height,
        ..position
    };
    store.store_position(&committed);

    match update_open_interest_notional(store, basis_removed_int.invert_sign(), 0, swap.trader) {
        Ok(()) => (),
        Err(_) => (),
    }

    let withdraw = realize_bad_debt(store, remain.bad_debt);

    store.enter_restriction_mode(swap.vamm, block_height);

    store.remove_tmp_swap();
    store.remove_tmp_liquidator();
    store.remove_sent_funds();

    Ok(
        SettlementReceipt {
            margin_to_vault: Integer::zero(),
            toll_to_fee_pool: 0,
            spread_to_insurance: 0,
            fee_to_liquidator: fee,
            withdraw_from_insurance: withdraw,
            bad_debt: remain.bad_debt,
        },
    )
}

/// Partial-liquidation value conservation: when the remainder stays
/// solvent, the margin before the liquidation equals the margin after,
/// plus the liquidation fee paid, plus the loss realized from the
/// notional reduction (a profit enters negatively), plus the funding
/// settled along the way. No value appears or disappears in a partial
/// liquidation.
pub proof fn lemma_partial_liquidation_value_conservation(
    store: EngineStorage,
    position: Position,
    realized_pnl: int,
    fee: int,
)
    requires
        crate::margin::spec_remaining(store, position, realized_pnl - fee) >= 0,
    ensures
        position.margin as int == spec_remain_margin(store, position, realized_pnl - fee) + fee
            + (-realized_pnl) + crate::margin::spec_funding_payment(
            store.spec_latest_premium_fraction(position.vamm),
            position.last_updated_premium_fraction,
            position.size,
            store.config.decimals,
        ),
{
}

/// The validation ladder of `reverse_position_reply`.
pub open spec fn spec_reverse_validate(
    store: EngineStorage,
    input: u128,
    output: u128,
) -> Option<EngineError> {
    if store.tmp_swap is None {
        Some(EngineError::NoStagedIntent)
    } else {
        let swap = store.tmp_swap->0;
        let position = store.spec_position(swap.vamm, swap.trader);
        if position.size.as_int() == 0 {
            Some(EngineError::InvalidSettlement)
        } else if input != position.size.value {
            Some(EngineError::InvalidSettlement)
        } else if output > MAX_AMOUNT {
            Some(EngineError::AmountOutOfRange)
        } else if swap.leverage == 0 || swap.leverage < store.config.decimals {
            Some(EngineError::InvalidSettlement)
        } else if spec_remain_margin(
            store,
            position,
            crate::margin::spec_pnl(position, output as int),
        ) > MAX_AMOUNT {
            Some(EngineError::AmountOutOfRange)
        } else {
            None
        }
    }
}

/// Residual notional a reversal still has to open after the full unwind
/// of the old exposure.
pub open spec fn spec_reverse_residual(swap: TmpSwapInfo, output: u128) -> int {
    if swap.open_notional > output {
        swap.open_notional - output
    } else {
        0
    }
}

/// Margin backing the residual leg: the residual notional at the staged
/// leverage.
pub open spec fn spec_reverse_chained_margin(store: EngineStorage, swap: TmpSwapInfo, output: u128) -> int {
    (spec_reverse_residual(swap, output) * store.config.decimals) as int / (swap.leverage as int)
}

/// The intent a reversal re-stages for its chained second leg: open the
/// residual notional on the new side, fees already paid.
pub open spec fn spec_reverse_chained_staged(
    store: EngineStorage,
    swap: TmpSwapInfo,
    output: u128,
) -> TmpSwapInfo {
    TmpSwapInfo {
        margin_amount: spec_reverse_chained_margin(store, swap, output) as u128,
        open_notional: spec_reverse_residual(swap, output) as u128,
        position_notional: 0,
        unrealized_pnl: Integer { negative: false, value: 0 },
        margin_to_vault: Integer { negative: false, value: 0 },
        fees_paid: true,
        ..swap
    }
}

/// Settles a confirmed reversal: the old position is fully unwound at
/// the realized quote, its profit and loss and funding folded into the
/// released margin, fees for the whole physical trade charged on the
/// staged notional, bad debt socialized, and open interest shrunk by the
/// old cost basis. If the staged notional exceeds what the unwind
/// fetched, the residual opposite position is opened by a second,
/// chained swap request returned to the host, staged with fees already
/// paid; otherwise the staged intent is simply cleared. The vault nets
/// the chained leg's margin against the released margin. `input` is the
/// base unwound (the full size), `output` the quote received. On any
/// error nothing is persisted.
pub fn reverse_position_reply(
    store: &mut EngineStorage,
    block_height: u64,
    input: u128,
    output: u128,
    toll_ratio: u128,
    spread_ratio: u128,
) -> (r: Result<(SettlementReceipt, Option<crate::handle::SwapRequest>), EngineError>)
    requires
        old(store).inv(),
        toll_ratio <= old(store).config.decimals,
        spread_ratio <= old(store).config.decimals,
        old(store).state.open_interest_notional + 2 * MAX_AMOUNT <= u128::MAX,
    ensures
        final(store).inv(),
        match r {
            Err(e) => {
                &&& spec_reverse_validate(*old(store), input, output) == Some(e)
                &&& *final(store) == *old(store)
            },
            Ok((receipt, chained)) => {
                &&& spec_reverse_validate(*old(store), input, output) is None
                &&& {
                    let swap = old(store).tmp_swap->0;
                    let position = old(store).spec_position(swap.vamm, swap.trader);
                    let remain_margin = spec_close_remain_margin(*old(store), position, output);
                    let bad_debt = spec_close_bad_debt(*old(store), position, output);
                    let residual = spec_reverse_residual(swap, output);
                    let chained_margin = spec_reverse_chained_margin(*old(store), swap, output);
                    &&& final(store).spec_position(swap.vamm, swap.trader) == (Position {
                        size: Integer { negative: false, value: 0 },
                        margin: 0,
                        notional: 0,
                        last_updated_premium_fraction: Integer { negative: false, value: 0 },
                        block_number: block_height,
                        ..position
                    })
                    &&& forall|v: u64, t: u64|
                        crate::storage::pos_key(v, t) != crate::storage::pos_key(
                            swap.vamm,
                            swap.trader,
                        ) ==> #[trigger] final(store).spec_position(v, t) == old(
                            store,
                        ).spec_position(v, t)
                    &&& final(store).state.open_interest_notional == spec_updated_open_interest(
                        *old(store),
                        crate::integer::int_to_integer(-(position.notional as int)),
                    )
                    &&& final(store).state.prepaid_bad_debt == (if old(
                        store,
                    ).state.prepaid_bad_debt > bad_debt {
                        old(store).state.prepaid_bad_debt - bad_debt
                    } else {
                        0
                    })
                    &&& final(store).state.pause == old(store).state.pause
                    &&& (if residual > 0 {
                        &&& final(store).tmp_swap == Some(
                            spec_reverse_chained_staged(*old(store), swap, output),
                        )
                        &&& chained == Some(
                            crate::handle::spec_swap_input(
                                swap.vamm,
                                swap.side,
                                residual as u128,
                                0,
                                false,
                                crate::handle::TradeKind::Increase,
                            ),
                        )
                    } else {
                        &&& final(store).tmp_swap is None
                        &&& chained is None
                    })
                    &&& final(store).tmp_liquidator is None
                    &&& final(store).sent_funds is None
                    &&& final(store).config == old(store).config
                    &&& final(store).vamm_maps@ == old(store).vamm_maps@
                    &&& final(store).whitelist@ == old(store).whitelist@
                    &&& receipt == (SettlementReceipt {
                        margin_to_vault: crate::integer::int_to_integer(
                            chained_margin - remain_margin,
                        ),
                        toll_to_fee_pool: spec_trade_fee(*old(store), swap, toll_ratio) as u128,
                        spread_to_insurance: spec_trade_fee(*old(store), swap, spread_ratio)
                            as u128,
                        fee_to_liquidator: 0,
                        withdraw_from_insurance: (if old(store).state.prepaid_bad_debt > bad_debt {
                            0int
                        } else {
                            bad_debt - old(store).state.prepaid_bad_debt
                        }) as u128,
                        bad_debt: bad_debt as u128,
                    })
                }
            },
        },
{
    let swap = match store.read_tmp_swap() {
        Ok(s) => s,
        Err(e) => {
            return Err(e);
        },
    };
    proof {
        assert(swap.wf()) by {
            assert(old(store).inv());
        }
    }
    let position = store.read_position(swap.vamm, swap.trader);
    if position.size.value == 0 {
        return Err(EngineError::InvalidSettlement);
    }
    proof {
        assert(position.wf() && position.vamm != 0 && position.trader != 0) by {
            assert(old(store).inv());
        }
    }
    if input != position.size.value {
        return Err(EngineError::InvalidSettlement);
    }
    if output > MAX_AMOUNT {
        return Err(EngineError::AmountOutOfRange);
    }
    if swap.leverage == 0 || swap.leverage < store.config.decimals {
        return Err(EngineError::InvalidSettlement);
    }

    let pnl = if matches!(position.direction, Direction::AddToAmm) {
        crate::integer::expect_some(
            Integer::new_positive(output).checked_sub(Integer::new_positive(position.notional)),
        )
    } else {
        crate::integer::expect_some(
            Integer::new_positive(position.notional).checked_sub(Integer::new_positive(output)),
        )
    };
    let remain = calc_remain_margin_with_funding_payment(store, position, pnl);
    if remain.margin > MAX_AMOUNT {
        return Err(EngineError::AmountOutOfRange);
    }

    let toll = if swap.fees_paid {
        0
    } else {
        compute_fee(swap.open_notional, toll_ratio, store.config.decimals)
    };
    let spread = if swap.fees_paid {
        0
    } else {
        compute_fee(swap.open_notional, spread_ratio, store.config.decimals)
    };

    let residual = if swap.open_notional > output {
        swap.open_notional - output
    } else {
        0
    };
    proof {
        crate::integer::lemma_mul_le(residual, store.config.decimals, MAX_AMOUNT, crate::types::MAX_SCALE);
        assert((residual * store.config.decimals) as int / (swap.leverage as int) <= residual)
            by (nonlinear_arith)
            requires
                store.config.decimals <= swap.leverage,
                swap.leverage >= 1,
                residual >= 0,
        ;
    }
    let chained_margin = (residual * store.config.decimals) / swap.leverage;

    let cleared = crate::types::clear_position(block_height, position);
    store.store_position(&cleared);

    match update_open_interest_notional(
        store,
        Integer::new_negative(position.notional),
        0,
        swap.trader,
    ) {
        Ok(()) => (),
        Err(_) => (),
    }

    let withdraw = realize_bad_debt(store, remain.bad_debt);

    store.remove_tmp_liquidator();
    store.remove_sent_funds();

    let margin_to_vault = crate::integer::expect_some(
        Integer::new_positive(chained_margin).checked_sub(Integer::new_positive(remain.margin)),
    );

    let chained: Option<crate::handle::SwapRequest> = if residual > 0 {
        store.store_tmp_swap(
            &TmpSwapInfo {
                margin_amount: chained_margin,
                open_notional: residual,
                position_notional: 0,
                unrealized_pnl: Integer::zero(),
                margin_to_vault: Integer::zero(),
                fees_paid: true,
                ..swap
            },
        );
        Some(
            crate::handle::internal_increase_position(swap.vamm, &swap.side, residual, 0),
        )
    } else {
        store.remove_tmp_swap();
        None
    };

    Ok(
        (
            SettlementReceipt {
                margin_to_vault,
                toll_to_fee_pool: toll,
                spread_to_insurance: spread,
                fee_to_liquidator: 0,
                withdraw_from_insurance: withdraw,
                bad_debt: remain.bad_debt,
            },
            chained,
        ),
    )
}

/// Folds a settled funding round into the market's cumulative
/// premium-fraction list and puts the market in restriction mode for the
/// current block. `premium_fraction` is the round's premium fraction as
/// the market reported it. Fails loudly, changing nothing, when the
/// fraction or the new cumulative value leaves the engine's fixed-point
/// range.
pub fn pay_funding_reply(
    store: &mut EngineStorage,
    vamm: u64,
    premium_fraction: Integer,
    block_height: u64,
) -> (r: Result<(), EngineError>)
    requires
        old(store).inv(),
        premium_fraction.wf(),
    ensures
        final(store).inv(),
        match r {
            Err(e) => {
                &&& e == EngineError::AmountOutOfRange
                &&& (premium_fraction.value > MAX_AMOUNT || int_abs(
                    old(store).spec_latest_premium_fraction(vamm).as_int()
                        + premium_fraction.as_int(),
                ) > MAX_AMOUNT)
                &&& *final(store) == *old(store)
            },
            Ok(()) => {
                &&& premium_fraction.value <= MAX_AMOUNT
                &&& final(store).spec_premium_fractions(vamm) == old(store).spec_premium_fractions(
                    vamm,
                ).push(final(store).spec_latest_premium_fraction(vamm))
                &&& final(store).spec_latest_premium_fraction(vamm).as_int() == old(
                    store,
                ).spec_latest_premium_fraction(vamm).as_int() + premium_fraction.as_int()
                &&& final(store).spec_last_restriction_block(vamm) == block_height
                &&& final(store).vamm_maps@.remove(vamm) == old(store).vamm_maps@.remove(vamm)
                &&& final(store).same_but_vamm_maps_changed_at(*old(store), vamm)
            },
        },
{
    if premium_fraction.value > MAX_AMOUNT {
        return Err(EngineError::AmountOutOfRange);
    }
    match store.append_cumulative_premium_fraction(vamm, premium_fraction) {
        Ok(()) => (),
        Err(e) => {
            return Err(e);
        },
    }
    let ghost mid = *store;
    store.enter_restriction_mode(vamm, block_height);
    proof {
        assert forall|v: u64|
            #![trigger store.vamm_maps@.dom().contains(v)]
            #![trigger old(store).vamm_maps@.dom().contains(v)]
            v != vamm implies old(store).vamm_maps@.contains_key(v)
            == store.vamm_maps@.contains_key(v) && (old(store).vamm_maps@.contains_key(v)
            ==> store.vamm_maps@[v] == old(store).vamm_maps@[v]) by {
            let a = mid.vamm_maps@[v];
            let b = store.vamm_maps@[v];
            assert(old(store).vamm_maps@.contains_key(v) == mid.vamm_maps@.contains_key(v));
            assert(mid.vamm_maps@.contains_key(v) == store.vamm_maps@.contains_key(v));
        }
        assert(store.vamm_maps@.remove(vamm) =~= old(store).vamm_maps@.remove(vamm));
    }
    Ok(())
}

} // verus!
