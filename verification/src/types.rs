//! Data model of the margin engine: positions, configuration, global state,
//! the staged swap intent, and the per-market funding record.
//!
//! Accounts (traders, markets, token contracts) are identified by nonzero
//! `u64` ids; the id `0` is reserved for "no account" and marks the default,
//! never-traded position. The host that owns real addresses maps them to ids
//! before calling in.

use vstd::prelude::*;

verus! {

use crate::integer::{Integer, MAX_AMOUNT};

/// Side of an order: `Buy` opens or extends a long, `Sell` a short.
#[derive(Clone, Copy, Debug, PartialEq, Eq, Structural)]
pub enum Side {
    Buy,
    Sell,
}

/// Direction of a swap against the price curve, seen from the curve's
/// quote reserve: a buy adds quote to the curve, a sell removes it.
#[derive(Clone, Copy, Debug, PartialEq, Eq, Structural)]
pub enum Direction {
    AddToAmm,
    RemoveFromAmm,
}

/// Pricing source for unrealized profit and loss.
#[derive(Clone, Copy, Debug, PartialEq, Eq, Structural)]
pub enum PnlCalcOption {
    SpotPrice,
    Twap,
    Oracle,
}

/// Collateral token descriptor: a native coin or a token contract.
#[derive(Clone, Copy, Debug, PartialEq, Eq, Structural)]
pub enum AssetKind {
    NativeToken { denom: u64 },
    Token { contract: u64 },
}

/// An amount of a concrete asset.
#[derive(Clone, Copy, Debug, PartialEq, Eq, Structural)]
pub struct Asset {
    pub info: AssetKind,
    pub amount: u128,
}

/// Takes the side (buy or sell) and returns the direction (long or short).
pub fn side_to_direction(side: &Side) -> (r: Direction)
    ensures
        r == (match side {
            Side::Buy => Direction::AddToAmm,
            Side::Sell => Direction::RemoveFromAmm,
        }),
{
    match side {
        Side::Buy => Direction::AddToAmm,
        Side::Sell => Direction::RemoveFromAmm,
    }
}

/// Takes the direction (long or short) and returns the side (buy or sell).
pub fn direction_to_side(direction: &Direction) -> (r: Side)
    ensures
        r == (match direction {
            Direction::AddToAmm => Side::Buy,
            Direction::RemoveFromAmm => Side::Sell,
        }),
{
    match direction {
        Direction::AddToAmm => Side::Buy,
        Direction::RemoveFromAmm => Side::Sell,
    }
}

/// The side whose swap unwinds a position of the given size.
pub fn position_to_side(size: Integer) -> (r: Side)
    requires
        size.wf(),
    ensures
        r == (if size.as_int() > 0 {
            Side::Sell
        } else {
            Side::Buy
        }),
{
    if size.gt(&Integer::zero()) {
        Side::Sell
    } else {
        Side::Buy
    }
}

/// One trader's exposure on one market.
#[derive(Clone, Copy, Debug, PartialEq, Eq, Structural)]
pub struct Position {
    pub vamm: u64,
    pub trader: u64,
    pub direction: Direction,
    /// Base units; positive for a long, negative for a short.
    pub size: Integer,
    /// Collateral backing the position.
    pub margin: u128,
    /// Quote value paid to open the exposure (cost basis).
    pub notional: u128,
    /// Funding checkpoint: the cumulative premium fraction already settled.
    pub last_updated_premium_fraction: Integer,
    /// Height of the block that last changed the position.
    pub block_number: u64,
}

impl Position {
    /// The canonical empty record returned for a never-traded or fully
    /// closed position.
    pub open spec fn spec_empty() -> Position {
        Position {
            vamm: 0,
            trader: 0,
            direction: Direction::AddToAmm,
            size: Integer { negative: false, value: 0 },
            margin: 0,
            notional: 0,
            last_updated_premium_fraction: Integer { negative: false, value: 0 },
            block_number: 0,
        }
    }

    pub fn empty() -> (r: Position)
        ensures
            r == Position::spec_empty(),
    {
        Position {
            vamm: 0,
            trader: 0,
            direction: Direction::AddToAmm,
            size: Integer::zero(),
            margin: 0,
            notional: 0,
            last_updated_premium_fraction: Integer::zero(),
            block_number: 0,
        }
    }

    /// Well-formedness: canonical signed fields, magnitudes within the
    /// engine's fixed-point range, the direction flag agreeing with the
    /// sign of the size, and the structural invariant that a flat position
    /// carries neither margin nor notional.
    pub open spec fn wf(self) -> bool {
        &&& self.size.wf()
        &&& self.last_updated_premium_fraction.wf()
        &&& self.size.value <= MAX_AMOUNT
        &&& self.margin <= MAX_AMOUNT
        &&& self.notional <= MAX_AMOUNT
        &&& self.last_updated_premium_fraction.value <= MAX_AMOUNT
        &&& self.size.as_int() != 0 ==> (self.direction == Direction::AddToAmm <==> self.size.as_int() > 0)
        &&& self.size.as_int() == 0 ==> self.margin == 0 && self.notional == 0
    }
}

/// This resets the main variables of a position, leaving the market,
/// trader and direction in place; the block height records when the reset
/// happened.
pub fn clear_position(block_height: u64, position: Position) -> (r: Position)
    ensures
        r == (Position {
            size: Integer { negative: false, value: 0 },
            margin: 0,
            notional: 0,
            last_updated_premium_fraction: Integer { negative: false, value: 0 },
            block_number: block_height,
            ..position
        }),
        r.wf(),
{
    Position {
        size: Integer::zero(),
        margin: 0,
        notional: 0,
        last_updated_premium_fraction: Integer::zero(),
        block_number: block_height,
        ..position
    }
}

/// Engine configuration; mutated only by owner-authorized updates.
#[derive(Clone, Copy, Debug, PartialEq, Eq, Structural)]
pub struct Config {
    pub owner: u64,
    /// Account allowed to pause the engine and manage the whitelist.
    pub pauser: u64,
    pub insurance_fund: Option<u64>,
    pub fee_pool: u64,
    pub eligible_collateral: AssetKind,
    /// Fixed-point scale: the representation of 1.0.
    pub decimals: u128,
    pub initial_margin_ratio: u128,
    pub maintenance_margin_ratio: u128,
    pub partial_liquidation_ratio: u128,
    pub liquidation_fee: u128,
}

/// Largest supported fixed-point scale (eighteen decimal places).
pub const MAX_SCALE: u128 = 1_000_000_000_000_000_000;

impl Config {
    /// The scale is positive and small enough that scaled products fit,
    /// and every ratio denotes a fraction of at most 1.0.
    pub open spec fn wf(self) -> bool {
        &&& 1 <= self.decimals <= MAX_SCALE
        &&& self.initial_margin_ratio <= self.decimals
        &&& self.maintenance_margin_ratio <= self.initial_margin_ratio
        &&& self.partial_liquidation_ratio <= self.decimals
        &&& self.liquidation_fee <= self.decimals
    }
}

/// A ratio is a fraction of at most 1.0, expressed in the engine's scale.
pub fn validate_ratio(value: u128, decimals: u128) -> (r: Result<(), crate::error::EngineError>)
    ensures
        r is Ok <==> value <= decimals,
        r is Err ==> r == Err::<(), _>(crate::error::EngineError::InvalidRatio),
{
    if value > decimals {
        Err(crate::error::EngineError::InvalidRatio)
    } else {
        Ok(())
    }
}

/// The initial margin requirement can never be weaker than the
/// maintenance requirement.
pub fn validate_margin_ratios(initial: u128, maintenance: u128) -> (r: Result<
    (),
    crate::error::EngineError,
>)
    ensures
        r is Ok <==> maintenance <= initial,
        r is Err ==> r == Err::<(), _>(crate::error::EngineError::InvalidRatio),
{
    if maintenance > initial {
        Err(crate::error::EngineError::InvalidRatio)
    } else {
        Ok(())
    }
}

/// Engine-wide mutable state.
#[derive(Clone, Copy, Debug, PartialEq, Eq, Structural)]
pub struct State {
    /// Aggregate open notional across the market's positions.
    pub open_interest_notional: u128,
    /// Bad debt already paid for out of the vault, netted before asking
    /// the insurance reserve for more.
    pub prepaid_bad_debt: u128,
    pub pause: bool,
}

/// Used to monitor that transferred native tokens are sufficient when
/// opening a new position or relevant operations.
#[derive(Clone, Copy, Debug, PartialEq, Eq, Structural)]
pub struct SentFunds {
    pub asset: Asset,
    pub required: u128,
}

impl SentFunds {
    /// Throws an error if the funds actually sent differ from the funds
    /// the operation turned out to require.
    pub fn are_sufficient(&self) -> (r: Result<(), crate::error::EngineError>)
        ensures
            r is Ok <==> self.asset.amount == self.required,
            r is Err ==> (r == Err::<(), _>(
                if self.asset.amount > self.required {
                    crate::error::EngineError::SentFundsExcessive
                } else {
                    crate::error::EngineError::SentFundsInsufficient
                },
            )),
    {
        if self.asset.amount > self.required {
            Err(crate::error::EngineError::SentFundsExcessive)
        } else if self.asset.amount < self.required {
            Err(crate::error::EngineError::SentFundsInsufficient)
        } else {
            Ok(())
        }
    }
}

/// The staged trade carried from phase one of a position-changing action
/// to its settlement: the single-slot pending swap intent.
#[derive(Clone, Copy, Debug, PartialEq, Eq, Structural)]
pub struct TmpSwapInfo {
    pub vamm: u64,
    pub trader: u64,
    /// Buy or sell.
    pub side: Side,
    /// Amount of quote asset being supplied (or the base size being
    /// unwound, for closing trades).
    pub margin_amount: u128,
    /// Leverage of the new position.
    pub leverage: u128,
    /// Notional of the trade being executed.
    pub open_notional: u128,
    /// Notional of the existing position at staging time, under spot
    /// pricing.
    pub position_notional: u128,
    /// Unrealized profit and loss of the existing position at staging
    /// time.
    pub unrealized_pnl: Integer,
    /// Margin owed to the vault once settled.
    pub margin_to_vault: Integer,
    /// True if fees were already charged for this physical trade (set when
    /// a reversal chains a second swap).
    pub fees_paid: bool,
}

impl TmpSwapInfo {
    pub open spec fn wf(self) -> bool {
        &&& self.vamm != 0
        &&& self.trader != 0
        &&& self.unrealized_pnl.wf()
        &&& self.margin_to_vault.wf()
        &&& self.margin_amount <= MAX_AMOUNT
        &&& self.leverage <= MAX_AMOUNT
        &&& self.open_notional <= MAX_AMOUNT
        &&& self.position_notional <= MAX_AMOUNT
        &&& self.unrealized_pnl.value <= MAX_AMOUNT
    }
}

/// Per-market funding record: the append-only list of cumulative premium
/// fractions and the last restriction-triggering block.
#[derive(Debug)]
pub struct VammMap {
    pub last_restriction_block: u64,
    pub cumulative_premium_fractions: Vec<Integer>,
}

impl VammMap {
    pub fn new_empty() -> (r: VammMap)
        ensures
            r.last_restriction_block == 0,
            r.cumulative_premium_fractions@ =~= Seq::<Integer>::empty(),
            r.wf(),
    {
        VammMap { last_restriction_block: 0, cumulative_premium_fractions: Vec::new() }
    }

    pub open spec fn wf(self) -> bool {
        forall|i: int|
            0 <= i < self.cumulative_premium_fractions@.len() ==> {
                &&& (#[trigger] self.cumulative_premium_fractions@[i]).wf()
                &&& self.cumulative_premium_fractions@[i].value <= MAX_AMOUNT
            }
    }

    /// The cumulative premium fraction as of the latest settled round;
    /// zero when no round has settled yet.
    pub open spec fn spec_latest_premium_fraction(self) -> Integer {
        if self.cumulative_premium_fractions@.len() == 0 {
            Integer { negative: false, value: 0 }
        } else {
            self.cumulative_premium_fractions@[self.cumulative_premium_fractions@.len() - 1]
        }
    }

    pub fn latest_premium_fraction(&self) -> (r: Integer)
        ensures
            r == self.spec_latest_premium_fraction(),
    {
        let n = self.cumulative_premium_fractions.len();
        if n == 0 {
            Integer::zero()
        } else {
            self.cumulative_premium_fractions[n - 1]
        }
    }
}

/// Funding payment owed on a position, with the margin remaining after it
/// is settled; negative remainder is clamped to zero and surfaced as bad
/// debt.
#[derive(Clone, Copy, Debug, PartialEq, Eq, Structural)]
pub struct RemainMarginResponse {
    pub funding_payment: Integer,
    pub margin: u128,
    pub bad_debt: u128,
    pub latest_premium_fraction: Integer,
}

/// A position's notional under the requested pricing source, with the
/// unrealized profit or loss against its cost basis.
#[derive(Clone, Copy, Debug, PartialEq, Eq, Structural)]
pub struct PositionUnrealizedPnlResponse {
    pub position_notional: u128,
    pub unrealized_pnl: Integer,
}

} // verus!
