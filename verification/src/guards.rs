//! Precondition guards shared by the trade handlers. Each guard returns
//! `Ok` exactly on the inputs it accepts and a specific error otherwise.

use vstd::prelude::*;

verus! {

use crate::error::EngineError;
use crate::integer::Integer;
use crate::storage::EngineStorage;

/// Check margin engine is not paused.
pub fn require_not_paused(paused: bool) -> (r: Result<(), EngineError>)
    ensures
        r is Ok <==> !paused,
        r is Err ==> r == Err::<(), _>(EngineError::Paused),
{
    if paused {
        Err(EngineError::Paused)
    } else {
        Ok(())
    }
}

/// Check an input is non-zero.
pub fn require_non_zero_input(input: u128) -> (r: Result<(), EngineError>)
    ensures
        r is Ok <==> input != 0,
        r is Err ==> r == Err::<(), _>(EngineError::ZeroInput),
{
    if input == 0 {
        Err(EngineError::ZeroInput)
    } else {
        Ok(())
    }
}

/// Checks that the position isn't zero.
pub fn require_position_not_zero(size: u128) -> (r: Result<(), EngineError>)
    ensures
        r is Ok <==> size != 0,
        r is Err ==> r == Err::<(), _>(EngineError::PositionZero),
{
    if size == 0 {
        Err(EngineError::PositionZero)
    } else {
        Ok(())
    }
}

/// Check no bad debt.
pub fn require_bad_debt(bad_debt: u128) -> (r: Result<(), EngineError>)
    ensures
        r is Ok <==> bad_debt == 0,
        r is Err ==> r == Err::<(), _>(EngineError::InsufficientMargin),
{
    if bad_debt != 0 {
        Err(EngineError::InsufficientMargin)
    } else {
        Ok(())
    }
}

/// Checks that the margin ratio meets the base requirement (used on open:
/// the fresh trade's ratio must reach the initial margin ratio).
pub fn require_additional_margin(margin_ratio: Integer, base_margin: u128) -> (r: Result<
    (),
    EngineError,
>)
    requires
        margin_ratio.wf(),
    ensures
        r is Ok <==> margin_ratio.as_int() >= base_margin as int,
        r is Err ==> r == Err::<(), _>(EngineError::Undercollateralized),
{
    if margin_ratio.lt(&Integer::new_positive(base_margin)) {
        Err(EngineError::Undercollateralized)
    } else {
        Ok(())
    }
}

/// Checks that the margin ratio is at or below the base requirement (used
/// on liquidation: a position above maintenance margin may not be
/// liquidated).
pub fn require_insufficient_margin(margin_ratio: Integer, base_margin: u128) -> (r: Result<
    (),
    EngineError,
>)
    requires
        margin_ratio.wf(),
    ensures
        r is Ok <==> margin_ratio.as_int() <= base_margin as int,
        r is Err ==> r == Err::<(), _>(EngineError::Overcollateralized),
{
    if margin_ratio.gt(&Integer::new_positive(base_margin)) {
        Err(EngineError::Overcollateralized)
    } else {
        Ok(())
    }
}

/// One action per block during a restriction window: rejects when the
/// market entered restriction mode this block and the trader's position
/// was also last changed this block.
pub fn require_not_restriction_mode(
    store: &EngineStorage,
    vamm: u64,
    trader: u64,
    block_height: u64,
) -> (r: Result<(), EngineError>)
    ensures
        r is Ok <==> !(store.spec_last_restriction_block(vamm) == block_height && store.spec_position(
            vamm,
            trader,
        ).block_number == block_height),
        r is Err ==> r == Err::<(), _>(EngineError::RestrictionViolation),
{
    let last_restriction_block = store.read_last_restriction_block(vamm);
    let position = store.read_position(vamm, trader);
    if last_restriction_block == block_height && position.block_number == block_height {
        Err(EngineError::RestrictionViolation)
    } else {
        Ok(())
    }
}

/// What the host observed about a market before a call: whether the
/// insurance reserve knows it, and whether its price curve is open.
#[derive(Clone, Copy, Debug, PartialEq, Eq, Structural)]
pub struct MarketStatus {
    /// Answer of the insurance reserve's registry for this market.
    pub registered: bool,
    /// The market's own open-for-trading flag.
    pub open: bool,
}

/// Check that the market is a registered, open price curve. The two facts
/// come from the insurance reserve and the market itself; the engine only
/// orders the failures: no reserve configured, unregistered market, then
/// closed market.
pub fn require_vamm(insurance: Option<u64>, status: &MarketStatus) -> (r: Result<(), EngineError>)
    ensures
        r is Ok <==> insurance is Some && status.registered && status.open,
        r is Err ==> r == Err::<(), _>(
            if insurance is None {
                EngineError::InsuranceNotRegistered
            } else if !status.registered {
                EngineError::VammNotRegistered
            } else {
                EngineError::VammNotOpen
            },
        ),
{
    if insurance.is_none() {
        return Err(EngineError::InsuranceNotRegistered);
    }
    if !status.registered {
        return Err(EngineError::VammNotRegistered);
    }
    if !status.open {
        return Err(EngineError::VammNotOpen);
    }
    Ok(())
}

} // verus!
