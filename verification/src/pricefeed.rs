//! The price oracle's round store: an append-only history of price
//! rounds per feed, with spot, historical and time-weighted average
//! queries.
//!
//! The time-weighted average price over an interval is the integral of
//! the piecewise-constant price curve over that interval, divided by its
//! length. That integral is the specification here; the query's loop is
//! proved to compute it exactly.

use vstd::prelude::*;

verus! {

use crate::error::EngineError;
use crate::integer::MAX_AMOUNT;

/// One settled price round: its one-based id, price and timestamp.
#[derive(Clone, Copy, Debug, PartialEq, Eq, Structural)]
pub struct PriceData {
    pub round_id: u64,
    pub price: u128,
    pub timestamp: u64,
}

/// The step-function integral of the price over `[lo, upper]`,
/// accumulated from round `j` downward: round `j` is in effect from its
/// own timestamp until `upper`, each earlier round until the next
/// round's timestamp, and the earliest round reaching `lo` closes the
/// interval.
pub open spec fn spec_twap_weighted(rounds: Seq<PriceData>, j: int, upper: int, lo: int) -> int
    decreases j + 1,
{
    if j < 0 {
        0
    } else if rounds[j].timestamp <= lo {
        rounds[j].price * (upper - lo)
    } else {
        rounds[j].price * (upper - rounds[j].timestamp) + spec_twap_weighted(
            rounds,
            j - 1,
            rounds[j].timestamp as int,
            lo,
        )
    }
}

/// Splitting the integral at a round's timestamp: everything above it,
/// plus everything from there down to `lo`.
proof fn lemma_twap_split(rounds: Seq<PriceData>, j: int, upper: int, idx: int, lo: int)
    requires
        0 <= idx <= j < rounds.len(),
        lo < rounds[idx].timestamp,
        forall|a: int, b: int|
            0 <= a < b < rounds.len() ==> #[trigger] rounds[a].timestamp < #[trigger] rounds[b].timestamp,
    ensures
        spec_twap_weighted(rounds, j, upper, lo) == spec_twap_weighted(
            rounds,
            j,
            upper,
            rounds[idx].timestamp as int,
        ) + spec_twap_weighted(rounds, idx - 1, rounds[idx].timestamp as int, lo),
    decreases j,
{
    if j == idx {
        assert(rounds[j].timestamp > lo);
    } else {
        assert(rounds[idx].timestamp < rounds[j].timestamp);
        lemma_twap_split(rounds, j - 1, rounds[j].timestamp as int, idx, lo);
    }
}

/// An append-only price feed.
pub struct PriceFeed {
    pub owner: u64,
    pub executor: u64,
    pub rounds: Vec<PriceData>,
}

impl PriceFeed {
    /// Rounds are numbered from one in order, prices stay in the
    /// engine's range, and timestamps strictly increase.
    pub open spec fn inv(self) -> bool {
        &&& forall|i: int|
            0 <= i < self.rounds@.len() ==> (#[trigger] self.rounds@[i]).round_id == i + 1
                && self.rounds@[i].price <= MAX_AMOUNT
        &&& forall|a: int, b: int|
            0 <= a < b < self.rounds@.len() ==> #[trigger] self.rounds@[a].timestamp
                < #[trigger] self.rounds@[b].timestamp
    }

    pub fn new(owner: u64, executor: u64) -> (r: PriceFeed)
        ensures
            r.inv(),
            r.owner == owner,
            r.executor == executor,
            r.rounds@ =~= Seq::<PriceData>::empty(),
    {
        PriceFeed { owner, executor, rounds: Vec::new() }
    }

    /// Queries contract owner from the admin.
    pub fn query_owner(&self) -> (r: u64)
        ensures
            r == self.owner,
    {
        self.owner
    }

    /// Queries contract executor from the admin.
    pub fn query_executor(&self) -> (r: u64)
        ensures
            r == self.executor,
    {
        self.executor
    }

    /// Queries latest round id of price; zero when no round exists.
    pub fn query_last_round_id(&self) -> (r: u64)
        requires
            self.inv(),
            self.rounds@.len() <= u64::MAX,
        ensures
            r == self.rounds@.len(),
    {
        self.rounds.len() as u64
    }

    /// Reads a round by its one-based id; ids outside the history read
    /// as an all-zero round.
    pub fn read_price_data(&self, round_id: u64) -> (r: PriceData)
        ensures
            if 1 <= round_id <= self.rounds@.len() {
                r == self.rounds@[round_id - 1]
            } else {
                r == (PriceData { round_id: 0, price: 0, timestamp: 0 })
            },
    {
        if round_id >= 1 && round_id <= self.rounds.len() as u64 {
            self.rounds[(round_id - 1) as usize]
        } else {
            PriceData { round_id: 0, price: 0, timestamp: 0 }
        }
    }

    /// Appends a price round; only the executor may, the price must be
    /// in range, and the timestamp must advance past the latest round's.
    pub fn append_price(&mut self, sender: u64, price: u128, timestamp: u64) -> (r: Result<
        (),
        EngineError,
    >)
        requires
            old(self).inv(),
            old(self).rounds@.len() + 1 <= u64::MAX,
        ensures
            final(self).inv(),
            final(self).owner == old(self).owner,
            final(self).executor == old(self).executor,
            match r {
                Ok(()) => {
                    &&& sender == old(self).executor
                    &&& price <= MAX_AMOUNT
                    &&& (old(self).rounds@.len() == 0 || old(self).rounds@.last().timestamp
                        < timestamp)
                    &&& final(self).rounds@ == old(self).rounds@.push(
                        PriceData {
                            round_id: (old(self).rounds@.len() + 1) as u64,
                            price,
                            timestamp,
                        },
                    )
                },
                Err(e) => {
                    &&& final(self).rounds@ == old(self).rounds@
                    &&& e == (if sender != old(self).executor {
                        EngineError::Unauthorized
                    } else if price > MAX_AMOUNT {
                        EngineError::AmountOutOfRange
                    } else {
                        EngineError::StaleRound
                    })
                    &&& (sender != old(self).executor || price > MAX_AMOUNT || (old(
                        self,
                    ).rounds@.len() > 0 && old(self).rounds@.last().timestamp >= timestamp))
                },
            },
    {
        if sender != self.executor {
            return Err(EngineError::Unauthorized);
        }
        if price > MAX_AMOUNT {
            return Err(EngineError::AmountOutOfRange);
        }
        let n = self.rounds.len();
        if n > 0 && self.rounds[n - 1].timestamp >= timestamp {
            return Err(EngineError::StaleRound);
        }
        let round_id = (n as u64) + 1;
        self.rounds.push(PriceData { round_id, price, timestamp });
        proof {
            assert forall|a: int, b: int|
                0 <= a < b < self.rounds@.len() implies #[trigger] self.rounds@[a].timestamp
                < #[trigger] self.rounds@[b].timestamp by {
                if b == self.rounds@.len() - 1 && a < n {
                    assert(old(self).rounds@[a].timestamp <= old(self).rounds@[n - 1].timestamp);
                }
            }
        }
        Ok(())
    }

    /// Queries latest price for the feed.
    pub fn query_get_price(&self) -> (r: Result<u128, EngineError>)
        requires
            self.inv(),
        ensures
            match r {
                Ok(p) => self.rounds@.len() > 0 && p == self.rounds@.last().price,
                Err(e) => e == EngineError::InsufficientHistory && self.rounds@.len() == 0,
            },
    {
        let n = self.rounds.len();
        if n == 0 {
            return Err(EngineError::InsufficientHistory);
        }
        Ok(self.rounds[n - 1].price)
    }

    /// Queries the price as of `num_round_back` rounds before the
    /// latest; asking past the first round reads the all-zero round,
    /// and asking further back than the history reaches is an error.
    pub fn query_get_previous_price(&self, num_round_back: u64) -> (r: Result<u128, EngineError>)
        requires
            self.inv(),
            self.rounds@.len() <= u64::MAX,
        ensures
            match r {
                Ok(p) => num_round_back <= self.rounds@.len() && p == (if num_round_back
                    < self.rounds@.len() {
                    self.rounds@[self.rounds@.len() - 1 - num_round_back].price
                } else {
                    0int as u128
                }),
                Err(e) => e == EngineError::InsufficientHistory && num_round_back
                    > self.rounds@.len(),
            },
    {
        let last = self.query_last_round_id();
        if num_round_back > last {
            return Err(EngineError::InsufficientHistory);
        }
        let data = self.read_price_data(last - num_round_back);
        Ok(data.price)
    }

    /// The time-weighted average price over the trailing `interval`
    /// seconds: the integral of the piecewise-constant price curve over
    /// `[now - interval, now]` — clipped at the earliest round — divided
    /// by the clipped interval's length. When the latest round is older
    /// than the whole interval, or only one round exists, that round's
    /// price is the average.
    pub fn query_get_twap_price(&self, now: u64, interval: u64) -> (r: Result<u128, EngineError>)
        requires
            self.inv(),
        ensures
            ({
                let n = self.rounds@.len() as int;
                let base = now - interval;
                if interval == 0 {
                    r == Err::<u128, _>(EngineError::ZeroInput)
                } else if now < interval {
                    r == Err::<u128, _>(EngineError::AmountOutOfRange)
                } else if n == 0 {
                    r == Err::<u128, _>(EngineError::InsufficientHistory)
                } else if self.rounds@.last().timestamp < base || n == 1 {
                    r == Ok::<u128, EngineError>(self.rounds@.last().price)
                } else if self.rounds@.last().timestamp > now {
                    r == Err::<u128, _>(EngineError::AmountOutOfRange)
                } else {
                    let lo = if self.rounds@[0].timestamp > base {
                        self.rounds@[0].timestamp as int
                    } else {
                        base
                    };
                    r == Ok::<u128, EngineError>(
                        (spec_twap_weighted(self.rounds@, n - 1, now as int, lo) / (now - lo))
                            as u128,
                    )
                }
            }),
    {
        if interval == 0 {
            return Err(EngineError::ZeroInput);
        }
        if now < interval {
            return Err(EngineError::AmountOutOfRange);
        }
        let base = now - interval;
        let n = self.rounds.len();
        if n == 0 {
            return Err(EngineError::InsufficientHistory);
        }

        let mut idx = n - 1;
        let mut ts = self.rounds[idx].timestamp;
        if ts < base || n == 1 {
            return Ok(self.rounds[idx].price);
        }
        if ts > now {
            return Err(EngineError::AmountOutOfRange);
        }

        proof {
            crate::integer::lemma_mul_le(
                self.rounds@[idx as int].price,
                (now - ts) as u128,
                MAX_AMOUNT,
                u64::MAX as u128,
            );
        }
        let mut weighted: u128 = self.rounds[idx].price * ((now - ts) as u128);
        proof {
            assert(weighted <= (now - ts) * MAX_AMOUNT) by (nonlinear_arith)
                requires
                    weighted == self.rounds@[idx as int].price * ((now - ts) as u128),
                    self.rounds@[idx as int].price <= MAX_AMOUNT,
                    now >= ts,
            ;
        }

        while idx > 0
            invariant
                self.inv(),
                n == self.rounds@.len(),
                0 <= idx < n,
                ts == self.rounds@[idx as int].timestamp,
                base <= ts <= now,
                base == now - interval,
                interval > 0,
                n >= 2,
                self.rounds@[n - 1].timestamp <= now,
                base <= self.rounds@[n - 1].timestamp,
                weighted == spec_twap_weighted(self.rounds@, n - 1, now as int, ts as int),
                weighted <= (now - ts) * MAX_AMOUNT,
            decreases idx,
        {
            let next_ts = self.rounds[idx - 1].timestamp;
            proof {
                assert(next_ts < ts);
                lemma_twap_split(self.rounds@, n - 1, now as int, idx as int, next_ts as int);
                if base < ts {
                    lemma_twap_split(self.rounds@, n - 1, now as int, idx as int, base as int);
                }
                crate::integer::lemma_mul_le(
                    self.rounds@[idx - 1].price,
                    (ts - next_ts) as u128,
                    MAX_AMOUNT,
                    u64::MAX as u128,
                );
                crate::integer::lemma_mul_le(
                    self.rounds@[idx - 1].price,
                    (ts - base) as u128,
                    MAX_AMOUNT,
                    u64::MAX as u128,
                );
                assert((now - ts) * MAX_AMOUNT + (ts - next_ts) * MAX_AMOUNT == (now - next_ts)
                    * MAX_AMOUNT) by (nonlinear_arith);
                assert((now - ts) * MAX_AMOUNT + (ts - base) * MAX_AMOUNT == (now - base)
                    * MAX_AMOUNT) by (nonlinear_arith);
                assert((now - next_ts) * MAX_AMOUNT <= u64::MAX * MAX_AMOUNT) by (nonlinear_arith)
                    requires
                        now - next_ts <= u64::MAX,
                ;
                assert((now - base) * MAX_AMOUNT <= u64::MAX * MAX_AMOUNT) by (nonlinear_arith)
                    requires
                        now - base <= u64::MAX,
                ;
                assert(self.rounds@[idx - 1].price * ((ts - next_ts) as u128) <= (ts - next_ts)
                    * MAX_AMOUNT) by (nonlinear_arith)
                    requires
                        self.rounds@[idx - 1].price <= MAX_AMOUNT,
                        ts >= next_ts,
                ;
                assert(self.rounds@[idx - 1].price * ((ts - base) as u128) <= (ts - base)
                    * MAX_AMOUNT) by (nonlinear_arith)
                    requires
                        self.rounds@[idx - 1].price <= MAX_AMOUNT,
                        ts >= base,
                ;
            }
            if next_ts <= base {
                proof {
                    if idx - 1 > 0 {
                        assert(self.rounds@[0].timestamp < self.rounds@[idx - 1].timestamp);
                    }
                    assert(self.rounds@[0].timestamp <= base);
                }
                // the earliest round inside the window closes it
                let weighted_total = weighted + self.rounds[idx - 1].price * ((ts - base) as u128);
                return Ok(weighted_total / (interval as u128));
            }
            weighted = weighted + self.rounds[idx - 1].price * ((ts - next_ts) as u128);
            idx = idx - 1;
            ts = next_ts;
        }

        // the whole history is inside the window: average from the
        // first round's timestamp
        Ok(weighted / ((now - ts) as u128))
    }
}

} // verus!
