//! Risk and accounting core of a leveraged perpetual-futures margin engine.
//!
//! The engine tracks one position per (market, trader) pair, mediates every
//! position-changing action through a two-phase protocol (stage an intent,
//! request a swap from the market's price curve, commit on the confirmed
//! result), accrues funding through a cumulative premium-fraction list, and
//! socializes bad debt against a prepaid balance backed by an insurance
//! reserve.
//!
//! All money amounts are fixed-point integers with an explicit decimal
//! scale; signed quantities use [`integer::Integer`]. The host that performs
//! message transport, token transfers and collaborator queries lives outside
//! this crate and hands every externally observed value in as a plain
//! argument.

pub mod error;
pub mod funding;
pub mod guards;
pub mod handle;
pub mod insurance;
pub mod integer;
pub mod margin;
pub mod pricefeed;
pub mod reply;
pub mod staking;
pub mod storage;
pub mod types;
