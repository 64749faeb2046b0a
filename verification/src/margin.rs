//! Pure margin calculator: unrealized profit and loss, remaining margin
//! after funding, bad debt, and the margin ratio — the engine's core
//! solvency metric.
//!
//! Every quantity the price curve or the oracle must answer (the quote
//! value of closing a position under spot, time-weighted or oracle
//! pricing) is handed in as a plain argument; everything else is computed
//! and proved here.

use vstd::prelude::*;

verus! {

use crate::error::EngineError;
use crate::integer::{Integer, MAX_AMOUNT, div_trunc, int_abs};
use crate::storage::EngineStorage;
use crate::types::{
    Direction, PnlCalcOption, Position, PositionUnrealizedPnlResponse, RemainMarginResponse,
};

/// Largest signed margin delta the calculator accepts; wide enough for
/// any profit-and-loss or fee difference of in-range amounts.
pub const MAX_DELTA: u128 = MAX_AMOUNT * MAX_AMOUNT;

/// Quotes read from the market's price curve and oracle for one position:
/// the quote-asset value of closing the position's full size under each
/// pricing source. Only the field selected by the pricing option is ever
/// read.
#[derive(Clone, Copy, Debug, PartialEq, Eq, Structural)]
pub struct AmmQuote {
    /// Quote value of closing the full size at the spot price.
    pub output_amount: u128,
    /// Quote value of closing the full size at the time-weighted average
    /// price.
    pub output_twap: u128,
    /// The oracle's underlying price of one base unit, in the engine's
    /// scale.
    pub oracle_price: u128,
}

impl AmmQuote {
    pub open spec fn wf(self) -> bool {
        &&& self.output_amount <= MAX_AMOUNT
        &&& self.output_twap <= MAX_AMOUNT
        &&& self.oracle_price <= MAX_AMOUNT
    }
}

/// The close notional selected by the pricing option: the spot or
/// time-weighted quote as handed in, or size times the oracle price.
pub open spec fn spec_notional_for_option(
    position: Position,
    calc_option: PnlCalcOption,
    quote: AmmQuote,
    decimals: u128,
) -> int {
    match calc_option {
        PnlCalcOption::SpotPrice => quote.output_amount as int,
        PnlCalcOption::Twap => quote.output_twap as int,
        PnlCalcOption::Oracle => (quote.oracle_price * position.size.value) as int / (
        decimals as int),
    }
}

/// Unrealized profit and loss: close notional minus cost basis for a
/// long, cost basis minus close notional for a short.
pub open spec fn spec_pnl(position: Position, output_notional: int) -> int {
    if position.direction == Direction::AddToAmm {
        output_notional - position.notional
    } else {
        position.notional - output_notional
    }
}

/// Funding owed on a position since its checkpoint:
/// `(cumulative_now - checkpoint) * size / scale`, truncated toward zero.
pub open spec fn spec_funding_payment(
    latest: Integer,
    checkpoint: Integer,
    size: Integer,
    decimals: u128,
) -> int {
    div_trunc((latest.as_int() - checkpoint.as_int()) * size.as_int(), decimals as int)
}

/// Margin left on a position after applying a signed delta and settling
/// funding, before clamping.
pub open spec fn spec_remaining(
    store: EngineStorage,
    position: Position,
    margin_delta: int,
) -> int {
    margin_delta - spec_funding_payment(
        store.spec_latest_premium_fraction(position.vamm),
        position.last_updated_premium_fraction,
        position.size,
        store.config.decimals,
    ) + position.margin
}

/// The clamped remaining margin: negative remainders become zero.
pub open spec fn spec_remain_margin(
    store: EngineStorage,
    position: Position,
    margin_delta: int,
) -> int {
    if spec_remaining(store, position, margin_delta) >= 0 {
        spec_remaining(store, position, margin_delta)
    } else {
        0
    }
}

/// Bad debt: the part of a negative remainder no collateral covers.
pub open spec fn spec_bad_debt(store: EngineStorage, position: Position, margin_delta: int) -> int {
    if spec_remaining(store, position, margin_delta) < 0 {
        -spec_remaining(store, position, margin_delta)
    } else {
        0
    }
}

/// Margin ratio of a position whose remaining margin and bad debt are
/// known: `(margin - bad_debt) * scale / notional`, truncated toward
/// zero.
pub open spec fn spec_margin_ratio_from(
    margin: int,
    bad_debt: int,
    decimals: u128,
    notional: int,
) -> int {
    div_trunc((margin - bad_debt) * decimals, notional)
}

/// The full margin-ratio pipeline for a position with nonzero size, given
/// the close notional the selected pricing source quoted.
pub open spec fn spec_margin_ratio(store: EngineStorage, position: Position, notional: int) -> int {
    spec_margin_ratio_from(
        spec_remain_margin(store, position, spec_pnl(position, notional)),
        spec_bad_debt(store, position, spec_pnl(position, notional)),
        store.config.decimals,
        notional,
    )
}

/// Remaining margin of a position after applying a signed margin delta
/// (profit and loss, a deposit or a withdrawal) and lazily settling all
/// funding accrued since the position's checkpoint. The funding payment
/// collapses every settled round into one step:
/// `(cumulative_now - checkpoint) * size / scale`. A negative remainder
/// is reported as bad debt and the margin clamped to zero.
pub fn calc_remain_margin_with_funding_payment(
    store: &EngineStorage,
    position: Position,
    margin_delta: Integer,
) -> (r: RemainMarginResponse)
    requires
        store.inv(),
        position.wf(),
        margin_delta.wf(),
        margin_delta.value <= MAX_DELTA,
    ensures
        r.latest_premium_fraction == store.spec_latest_premium_fraction(position.vamm),
        r.funding_payment.wf(),
        r.funding_payment.as_int() == spec_funding_payment(
            store.spec_latest_premium_fraction(position.vamm),
            position.last_updated_premium_fraction,
            position.size,
            store.config.decimals,
        ),
        r.margin == spec_remain_margin(*store, position, margin_delta.as_int()),
        r.bad_debt == spec_bad_debt(*store, position, margin_delta.as_int()),
{
    let latest = store.query_cumulative_premium_fraction(position.vamm);
    let delta = crate::integer::expect_some(latest.checked_sub(position.last_updated_premium_fraction));
    proof {
        crate::integer::lemma_mul_le(
            delta.value,
            position.size.value,
            (2 * MAX_AMOUNT) as u128,
            MAX_AMOUNT,
        );
    }
    let product = crate::integer::expect_some(delta.checked_mul(position.size));
    let decimals_int = Integer::new_positive(store.config.decimals);
    let funding_payment = crate::integer::expect_some(product.checked_div(decimals_int));
    proof {
        assert(funding_payment.value <= product.value) by (nonlinear_arith)
            requires
                funding_payment.value == product.value / store.config.decimals,
                store.config.decimals >= 1,
        ;
    }
    let partial = crate::integer::expect_some(margin_delta.checked_sub(funding_payment));
    let remaining = crate::integer::expect_some(partial.checked_add(Integer::new_positive(position.margin)));
    if remaining.is_negative() {
        RemainMarginResponse {
            funding_payment,
            margin: 0,
            bad_debt: remaining.invert_sign().value,
            latest_premium_fraction: latest,
        }
    } else {
        RemainMarginResponse {
            funding_payment,
            margin: remaining.value,
            bad_debt: 0,
            latest_premium_fraction: latest,
        }
    }
}

/// Funding payment a position owes (negative means the trader pays) for
/// all rounds since its checkpoint, as reported to queries: the settled
/// amount with its sign flipped, zero for a flat position.
pub fn calc_funding_payment(position: Position, latest_premium_fraction: Integer, decimals: u128) -> (r:
    Integer)
    requires
        position.wf(),
        latest_premium_fraction.wf(),
        latest_premium_fraction.value <= MAX_AMOUNT,
        1 <= decimals,
    ensures
        r.wf(),
        r.as_int() == if position.size.as_int() == 0 {
            0
        } else {
            -spec_funding_payment(
                latest_premium_fraction,
                position.last_updated_premium_fraction,
                position.size,
                decimals,
            )
        },
{
    if position.size.is_zero() {
        Integer::zero()
    } else {
        let delta = crate::integer::expect_some(
            latest_premium_fraction.checked_sub(position.last_updated_premium_fraction),
        );
        proof {
            crate::integer::lemma_mul_le(
                delta.value,
                position.size.value,
                (2 * MAX_AMOUNT) as u128,
                MAX_AMOUNT,
            );
        }
        let product = crate::integer::expect_some(delta.checked_mul(position.size));
        let payment = crate::integer::expect_some(product.checked_div(Integer::new_positive(decimals)));
        payment.invert_sign()
    }
}

/// Close notional and unrealized profit and loss of a position under the
/// requested pricing source. A flat position reports zero for both
/// without consulting any quote.
pub fn get_position_notional_unrealized_pnl(
    store: &EngineStorage,
    position: &Position,
    calc_option: PnlCalcOption,
    quote: &AmmQuote,
) -> (r: PositionUnrealizedPnlResponse)
    requires
        store.inv(),
        position.wf(),
        quote.wf(),
    ensures
        r.unrealized_pnl.wf(),
        position.size.as_int() == 0 ==> r == (PositionUnrealizedPnlResponse {
            position_notional: 0,
            unrealized_pnl: Integer { negative: false, value: 0 },
        }),
        position.size.as_int() != 0 ==> {
            &&& r.position_notional == spec_notional_for_option(
                *position,
                calc_option,
                *quote,
                store.config.decimals,
            )
            &&& r.unrealized_pnl.as_int() == spec_pnl(*position, r.position_notional as int)
            &&& r.position_notional <= MAX_AMOUNT * MAX_AMOUNT
            &&& r.unrealized_pnl.value <= MAX_DELTA
        },
{
    if position.size.is_zero() {
        PositionUnrealizedPnlResponse {
            position_notional: 0,
            unrealized_pnl: Integer::zero(),
        }
    } else {
        let output_notional: u128 = match calc_option {
            PnlCalcOption::SpotPrice => quote.output_amount,
            PnlCalcOption::Twap => quote.output_twap,
            PnlCalcOption::Oracle => {
                proof {
                    crate::integer::lemma_mul_le(
                        quote.oracle_price,
                        position.size.value,
                        MAX_AMOUNT,
                        MAX_AMOUNT,
                    );
                    assert((quote.oracle_price * position.size.value) as int / (
                    store.config.decimals as int) <= quote.oracle_price * position.size.value)
                        by (nonlinear_arith)
                        requires
                            store.config.decimals >= 1,
                            quote.oracle_price * position.size.value >= 0,
                    ;
                }
                let p = quote.oracle_price * position.size.value;
                p / store.config.decimals
            },
        };
        let unrealized_pnl = if matches!(position.direction, Direction::AddToAmm) {
            crate::integer::expect_some(
                Integer::new_positive(output_notional).checked_sub(
                    Integer::new_positive(position.notional),
                ),
            )
        } else {
            crate::integer::expect_some(
                Integer::new_positive(position.notional).checked_sub(
                    Integer::new_positive(output_notional),
                ),
            )
        };
        PositionUnrealizedPnlResponse { position_notional: output_notional, unrealized_pnl }
    }
}

/// Margin ratio of the trader's position on the market under the
/// requested pricing source: zero for a flat position, else
/// `(remaining margin - bad debt) * scale / close notional` after folding
/// in unrealized profit and loss and funding. Fails loudly when the
/// quoted close notional is zero for a live position or an intermediate
/// value leaves the engine's fixed-point range.
pub fn get_margin_ratio_calc_option(
    store: &EngineStorage,
    vamm: u64,
    trader: u64,
    calc_option: PnlCalcOption,
    quote: &AmmQuote,
) -> (r: Result<Integer, EngineError>)
    requires
        store.inv(),
        quote.wf(),
    ensures
        ({
            let position = store.spec_position(vamm, trader);
            let notional = spec_notional_for_option(
                position,
                calc_option,
                *quote,
                store.config.decimals,
            );
            let delta = spec_pnl(position, notional);
            if position.size.as_int() == 0 {
                r == Ok::<Integer, EngineError>(Integer { negative: false, value: 0 })
            } else if notional > 0 && spec_remain_margin(*store, position, delta) <= MAX_AMOUNT
                && spec_bad_debt(*store, position, delta) <= MAX_AMOUNT {
                match r {
                    Ok(ratio) => ratio.wf() && ratio.value <= MAX_DELTA && ratio.as_int()
                        == spec_margin_ratio(*store, position, notional),
                    Err(_) => false,
                }
            } else {
                r == Err::<Integer, EngineError>(EngineError::AmountOutOfRange)
            }
        }),
{
    let position = store.read_position(vamm, trader);
    if position.size.is_zero() {
        return Ok(Integer::zero());
    }
    let pnl_response = get_position_notional_unrealized_pnl(store, &position, calc_option, quote);
    let remain = calc_remain_margin_with_funding_payment(
        store,
        position,
        pnl_response.unrealized_pnl,
    );
    if pnl_response.position_notional == 0 || remain.margin > MAX_AMOUNT || remain.bad_debt
        > MAX_AMOUNT {
        return Err(EngineError::AmountOutOfRange);
    }
    let numerator = crate::integer::expect_some(
        Integer::new_positive(remain.margin).checked_sub(Integer::new_positive(remain.bad_debt)),
    );
    proof {
        crate::integer::lemma_mul_le(
            numerator.value,
            store.config.decimals,
            (2 * MAX_AMOUNT) as u128,
            crate::types::MAX_SCALE,
        );
    }
    let scaled = crate::integer::expect_some(numerator.checked_mul(Integer::new_positive(store.config.decimals)));
    let ratio = crate::integer::expect_some(
        scaled.checked_div(Integer::new_positive(pnl_response.position_notional)),
    );
    Ok(ratio)
}

/// The margin ratio under spot pricing, as exposed to queries and to the
/// liquidation engine.
pub fn query_margin_ratio(store: &EngineStorage, vamm: u64, trader: u64, quote: &AmmQuote) -> (r:
    Result<Integer, EngineError>)
    requires
        store.inv(),
        quote.wf(),
    ensures
        ({
            let position = store.spec_position(vamm, trader);
            let notional = quote.output_amount as int;
            let delta = spec_pnl(position, notional);
            if position.size.as_int() == 0 {
                r == Ok::<Integer, EngineError>(Integer { negative: false, value: 0 })
            } else if notional > 0 && spec_remain_margin(*store, position, delta) <= MAX_AMOUNT
                && spec_bad_debt(*store, position, delta) <= MAX_AMOUNT {
                match r {
                    Ok(ratio) => ratio.wf() && ratio.value <= MAX_DELTA && ratio.as_int()
                        == spec_margin_ratio(*store, position, notional),
                    Err(_) => false,
                }
            } else {
                r == Err::<Integer, EngineError>(EngineError::AmountOutOfRange)
            }
        }),
{
    get_margin_ratio_calc_option(store, vamm, trader, PnlCalcOption::SpotPrice, quote)
}

/// The initial-margin requirement a freshly opened trade satisfies as a
/// function of its leverage: `scale * scale / leverage`.
pub open spec fn spec_ratio_of_leverage(decimals: u128, leverage: u128) -> int {
    (decimals * decimals) as int / leverage as int
}

/// Margin-ratio monotonicity: for a fixed notional and collateral scale,
/// the margin ratio backing a new position decreases monotonically as
/// leverage grows. Raising leverage can therefore never help a trade pass
/// the initial-margin check.
pub proof fn lemma_margin_ratio_monotone_in_leverage(decimals: u128, lev1: u128, lev2: u128)
    requires
        1 <= lev1 <= lev2,
    ensures
        spec_ratio_of_leverage(decimals, lev2) <= spec_ratio_of_leverage(decimals, lev1),
{
    vstd::arithmetic::div_mod::lemma_div_is_ordered_by_denominator(
        (decimals * decimals) as int,
        lev1 as int,
        lev2 as int,
    );
}

/// Whether the margin-ratio pipeline stays in range for a position and a
/// quoted close notional: the notional is positive and the remaining
/// margin and bad debt fit the engine's fixed-point range.
pub open spec fn spec_ratio_ok(store: EngineStorage, position: Position, notional: int) -> bool {
    &&& notional > 0
    &&& spec_remain_margin(store, position, spec_pnl(position, notional)) <= MAX_AMOUNT
    &&& spec_bad_debt(store, position, spec_pnl(position, notional)) <= MAX_AMOUNT
}

/// The funding payment's magnitude is bounded by the unscaled product of
/// the premium difference and the size.
pub proof fn lemma_funding_payment_bound(
    latest: Integer,
    checkpoint: Integer,
    size: Integer,
    decimals: u128,
)
    requires
        decimals >= 1,
        latest.value <= MAX_AMOUNT,
        checkpoint.value <= MAX_AMOUNT,
        size.value <= MAX_AMOUNT,
    ensures
        int_abs(spec_funding_payment(latest, checkpoint, size, decimals)) <= 2 * (MAX_AMOUNT
            * MAX_AMOUNT),
{
    let d = latest.as_int() - checkpoint.as_int();
    let a = d * size.as_int();
    assert(int_abs(a) <= 2 * (MAX_AMOUNT * MAX_AMOUNT) && int_abs(a) == int_abs(d) * int_abs(
        size.as_int(),
    )) by (nonlinear_arith)
        requires
            int_abs(d) <= 2 * MAX_AMOUNT,
            int_abs(size.as_int()) <= MAX_AMOUNT,
            a == d * size.as_int(),
    ;
    assert(int_abs(div_trunc(a, decimals as int)) <= int_abs(a)) by (nonlinear_arith)
        requires
            decimals >= 1,
    ;
}

} // verus!
