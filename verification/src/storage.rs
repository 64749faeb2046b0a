//! Keyed storage for the engine, threaded explicitly through every
//! operation: configuration and global state singletons, one position per
//! (market, trader) pair with default-on-missing reads, one funding record
//! per market, the transient staged swap intent, and the whitelist of
//! traders exempt from capacity caps.

use std::collections::HashMap;
use vstd::prelude::*;

verus! {

broadcast use vstd::std_specs::hash::group_hash_axioms;

use crate::error::EngineError;
use crate::integer::{Integer, MAX_AMOUNT, int_abs};
use crate::types::{Config, Position, SentFunds, State, TmpSwapInfo, VammMap};

/// Packs a (market, trader) pair into one storage key. The packing is
/// injective: market and trader are recovered as the high and low halves.
pub open spec fn pos_key(vamm: u64, trader: u64) -> u128 {
    ((vamm as int) * 0x1_0000_0000_0000_0000 + trader as int) as u128
}

pub proof fn lemma_pos_key_injective(v1: u64, t1: u64, v2: u64, t2: u64)
    ensures
        pos_key(v1, t1) == pos_key(v2, t2) ==> v1 == v2 && t1 == t2,
{
    assert(pos_key(v1, t1) == pos_key(v2, t2) ==> v1 == v2 && t1 == t2) by (nonlinear_arith);
}

fn position_key(vamm: u64, trader: u64) -> (r: u128)
    ensures
        r == pos_key(vamm, trader),
{
    (vamm as u128) * 0x1_0000_0000_0000_0000u128 + (trader as u128)
}

/// All persistent and transient engine storage.
pub struct EngineStorage {
    pub config: Config,
    pub state: State,
    pub positions: HashMap<u128, Position>,
    pub vamm_maps: HashMap<u64, VammMap>,
    pub whitelist: HashMap<u64, bool>,
    pub tmp_swap: Option<TmpSwapInfo>,
    pub tmp_liquidator: Option<u64>,
    pub sent_funds: Option<SentFunds>,
}

impl EngineStorage {
    /// Storage invariant: the configuration is well-formed, every stored
    /// position is well-formed and filed under the key derived from its
    /// own market and trader, every funding record is well-formed, and a
    /// staged intent, if any, is well-formed.
    pub open spec fn inv(self) -> bool {
        &&& self.config.wf()
        &&& forall|k: u128|
            self.positions@.contains_key(k) ==> {
                &&& (#[trigger] self.positions@[k]).wf()
                &&& pos_key(self.positions@[k].vamm, self.positions@[k].trader) == k
                &&& self.positions@[k].vamm != 0
                &&& self.positions@[k].trader != 0
            }
        &&& forall|v: u64| self.vamm_maps@.contains_key(v) ==> (#[trigger] self.vamm_maps@[v]).wf()
        &&& match self.tmp_swap {
            Some(s) => s.wf(),
            None => true,
        }
    }

    /// The position stored for (market, trader), or the canonical empty
    /// record when none is stored.
    pub open spec fn spec_position(self, vamm: u64, trader: u64) -> Position {
        if self.positions@.contains_key(pos_key(vamm, trader)) {
            self.positions@[pos_key(vamm, trader)]
        } else {
            Position::spec_empty()
        }
    }

    /// The funding record for a market: last restriction block and
    /// cumulative premium fractions. Missing records read as empty.
    pub open spec fn spec_last_restriction_block(self, vamm: u64) -> u64 {
        if self.vamm_maps@.contains_key(vamm) {
            self.vamm_maps@[vamm].last_restriction_block
        } else {
            0
        }
    }

    pub open spec fn spec_premium_fractions(self, vamm: u64) -> Seq<Integer> {
        if self.vamm_maps@.contains_key(vamm) {
            self.vamm_maps@[vamm].cumulative_premium_fractions@
        } else {
            Seq::empty()
        }
    }

    /// The cumulative premium fraction of the market's latest settled
    /// round; zero when no round has settled.
    pub open spec fn spec_latest_premium_fraction(self, vamm: u64) -> Integer {
        if self.spec_premium_fractions(vamm).len() == 0 {
            Integer { negative: false, value: 0 }
        } else {
            self.spec_premium_fractions(vamm)[self.spec_premium_fractions(vamm).len() - 1]
        }
    }

    pub open spec fn spec_whitelisted(self, trader: u64) -> bool {
        self.whitelist@.contains_key(trader)
    }

    /// Everything except positions is unchanged.
    pub open spec fn same_but_positions(self, other: EngineStorage) -> bool {
        &&& self.config == other.config
        &&& self.state == other.state
        &&& self.vamm_maps@ == other.vamm_maps@
        &&& self.whitelist@ == other.whitelist@
        &&& self.tmp_swap == other.tmp_swap
        &&& self.tmp_liquidator == other.tmp_liquidator
        &&& self.sent_funds == other.sent_funds
    }

    /// A fresh, empty store around the given configuration.
    pub fn new(config: Config) -> (r: EngineStorage)
        requires
            config.wf(),
        ensures
            r.inv(),
            r.config == config,
            r.state == (State { open_interest_notional: 0, prepaid_bad_debt: 0, pause: false }),
            r.positions@ == Map::<u128, Position>::empty(),
            r.vamm_maps@ == Map::<u64, VammMap>::empty(),
            r.whitelist@ == Map::<u64, bool>::empty(),
            r.tmp_swap is None,
            r.tmp_liquidator is None,
            r.sent_funds is None,
    {
        EngineStorage {
            config,
            state: State { open_interest_notional: 0, prepaid_bad_debt: 0, pause: false },
            positions: HashMap::new(),
            vamm_maps: HashMap::new(),
            whitelist: HashMap::new(),
            tmp_swap: None,
            tmp_liquidator: None,
            sent_funds: None,
        }
    }

    pub fn read_config(&self) -> (r: Config)
        ensures
            r == self.config,
    {
        self.config
    }

    pub fn store_config(&mut self, config: &Config)
        requires
            config.wf(),
            old(self).inv(),
        ensures
            final(self).inv(),
            final(self).config == *config,
            final(self).state == old(self).state,
            final(self).positions@ == old(self).positions@,
            final(self).vamm_maps@ == old(self).vamm_maps@,
            final(self).whitelist@ == old(self).whitelist@,
            final(self).tmp_swap == old(self).tmp_swap,
            final(self).tmp_liquidator == old(self).tmp_liquidator,
            final(self).sent_funds == old(self).sent_funds,
    {
        self.config = *config;
    }

    pub fn read_state(&self) -> (r: State)
        ensures
            r == self.state,
    {
        self.state
    }

    pub fn store_state(&mut self, state: &State)
        requires
            old(self).inv(),
        ensures
            final(self).inv(),
            final(self).state == *state,
            final(self).config == old(self).config,
            final(self).positions@ == old(self).positions@,
            final(self).vamm_maps@ == old(self).vamm_maps@,
            final(self).whitelist@ == old(self).whitelist@,
            final(self).tmp_swap == old(self).tmp_swap,
            final(self).tmp_liquidator == old(self).tmp_liquidator,
            final(self).sent_funds == old(self).sent_funds,
    {
        self.state = *state;
    }

    /// Reads the position stored for (market, trader). A missing record
    /// reads as the canonical empty position, never as an error, and the
    /// read changes nothing.
    pub fn read_position(&self, vamm: u64, trader: u64) -> (r: Position)
        ensures
            r == self.spec_position(vamm, trader),
    {
        let key = position_key(vamm, trader);
        match self.positions.get(&key) {
            Some(p) => *p,
            None => Position::empty(),
        }
    }

    /// Stores the position under the key derived from its own market and
    /// trader fields.
    pub fn store_position(&mut self, position: &Position)
        requires
            old(self).inv(),
            position.wf(),
            position.vamm != 0,
            position.trader != 0,
        ensures
            final(self).inv(),
            final(self).positions@ == old(self).positions@.insert(
                pos_key(position.vamm, position.trader),
                *position,
            ),
            final(self).spec_position(position.vamm, position.trader) == *position,
            forall|v: u64, t: u64|
                pos_key(v, t) != pos_key(position.vamm, position.trader) ==> #[trigger] final(self)
                    .spec_position(v, t) == old(self).spec_position(v, t),
            final(self).same_but_positions(*old(self)),
    {
        let key = position_key(position.vamm, position.trader);
        self.positions.insert(key, *position);
    }

    /// Removes the stored record; subsequent reads return the canonical
    /// empty position.
    pub fn remove_position(&mut self, vamm: u64, trader: u64)
        requires
            old(self).inv(),
        ensures
            final(self).inv(),
            final(self).positions@ == old(self).positions@.remove(pos_key(vamm, trader)),
            final(self).spec_position(vamm, trader) == Position::spec_empty(),
            forall|v: u64, t: u64|
                pos_key(v, t) != pos_key(vamm, trader) ==> #[trigger] final(self).spec_position(v, t)
                    == old(self).spec_position(v, t),
            final(self).same_but_positions(*old(self)),
    {
        let key = position_key(vamm, trader);
        self.positions.remove(&key);
    }

    pub fn store_tmp_swap(&mut self, swap: &TmpSwapInfo)
        requires
            old(self).inv(),
            swap.wf(),
        ensures
            final(self).inv(),
            final(self).tmp_swap == Some(*swap),
            *final(self) == (EngineStorage { tmp_swap: Some(*swap), ..*old(self) }),
    {
        self.tmp_swap = Some(*swap);
    }

    pub fn remove_tmp_swap(&mut self)
        requires
            old(self).inv(),
        ensures
            final(self).inv(),
            final(self).tmp_swap is None,
            *final(self) == (EngineStorage { tmp_swap: None, ..*old(self) }),
    {
        self.tmp_swap = None;
    }

    /// The staged swap intent; absent outside the window between staging
    /// and settlement.
    pub fn read_tmp_swap(&self) -> (r: Result<TmpSwapInfo, EngineError>)
        ensures
            match r {
                Ok(s) => self.tmp_swap == Some(s),
                Err(e) => self.tmp_swap is None && e == EngineError::NoStagedIntent,
            },
    {
        match self.tmp_swap {
            Some(s) => Ok(s),
            None => Err(EngineError::NoStagedIntent),
        }
    }

    pub fn store_tmp_liquidator(&mut self, liquidator: u64)
        requires
            old(self).inv(),
        ensures
            final(self).inv(),
            *final(self) == (EngineStorage { tmp_liquidator: Some(liquidator), ..*old(self) }),
    {
        self.tmp_liquidator = Some(liquidator);
    }

    pub fn remove_tmp_liquidator(&mut self)
        requires
            old(self).inv(),
        ensures
            final(self).inv(),
            *final(self) == (EngineStorage { tmp_liquidator: None, ..*old(self) }),
    {
        self.tmp_liquidator = None;
    }

    pub fn read_tmp_liquidator(&self) -> (r: Result<u64, EngineError>)
        ensures
            match r {
                Ok(l) => self.tmp_liquidator == Some(l),
                Err(e) => self.tmp_liquidator is None && e == EngineError::Unauthorized,
            },
    {
        match self.tmp_liquidator {
            Some(l) => Ok(l),
            None => Err(EngineError::Unauthorized),
        }
    }

    pub fn store_sent_funds(&mut self, funds: &SentFunds)
        requires
            old(self).inv(),
        ensures
            final(self).inv(),
            *final(self) == (EngineStorage { sent_funds: Some(*funds), ..*old(self) }),
    {
        self.sent_funds = Some(*funds);
    }

    pub fn remove_sent_funds(&mut self)
        requires
            old(self).inv(),
        ensures
            final(self).inv(),
            *final(self) == (EngineStorage { sent_funds: None, ..*old(self) }),
    {
        self.sent_funds = None;
    }

    pub fn read_sent_funds(&self) -> (r: Result<SentFunds, EngineError>)
        ensures
            match r {
                Ok(f) => self.sent_funds == Some(f),
                Err(e) => self.sent_funds is None && e == EngineError::NoSentFunds,
            },
    {
        match self.sent_funds {
            Some(f) => Ok(f),
            None => Err(EngineError::NoSentFunds),
        }
    }

    /// The block at which the market last entered restriction mode; zero
    /// when it never has.
    pub fn read_last_restriction_block(&self, vamm: u64) -> (r: u64)
        ensures
            r == self.spec_last_restriction_block(vamm),
    {
        match self.vamm_maps.get(&vamm) {
            Some(m) => m.last_restriction_block,
            None => 0,
        }
    }

    /// The cumulative premium fraction of the market's latest settled
    /// round; zero when no round has settled yet.
    pub fn query_cumulative_premium_fraction(&self, vamm: u64) -> (r: Integer)
        requires
            self.inv(),
        ensures
            r == self.spec_latest_premium_fraction(vamm),
            r.wf(),
            r.value <= MAX_AMOUNT,
    {
        match self.vamm_maps.get(&vamm) {
            Some(m) => m.latest_premium_fraction(),
            None => Integer::zero(),
        }
    }

    /// Accumulates the premium fraction of a newly settled round: appends
    /// `previous_last + premium_fraction` (or just `premium_fraction` for
    /// the market's first round) to the market's cumulative list. Fails
    /// loudly, changing nothing, when the new cumulative value would leave
    /// the engine's fixed-point range.
    pub fn append_cumulative_premium_fraction(&mut self, vamm: u64, premium_fraction: Integer) -> (r:
        Result<(), EngineError>)
        requires
            old(self).inv(),
            premium_fraction.wf(),
            premium_fraction.value <= MAX_AMOUNT,
        ensures
            final(self).inv(),
            match r {
                Ok(()) => {
                    &&& final(self).spec_premium_fractions(vamm) == old(self).spec_premium_fractions(
                        vamm,
                    ).push(final(self).spec_latest_premium_fraction(vamm))
                    &&& final(self).spec_latest_premium_fraction(vamm).as_int() == old(
                        self,
                    ).spec_latest_premium_fraction(vamm).as_int() + premium_fraction.as_int()
                    &&& final(self).spec_last_restriction_block(vamm) == old(
                        self,
                    ).spec_last_restriction_block(vamm)
                    &&& forall|v: u64|
                        v != vamm ==> old(self).vamm_maps@.contains_key(v) == final(self).vamm_maps@.contains_key(v)
                            && (old(self).vamm_maps@.contains_key(v) ==> #[trigger] final(self).vamm_maps@[v]
                            == old(self).vamm_maps@[v])
                    &&& final(self).same_but_vamm_maps_changed_at(*old(self), vamm)
                },
                Err(e) => {
                    &&& e == EngineError::AmountOutOfRange
                    &&& int_abs(
                        old(self).spec_latest_premium_fraction(vamm).as_int()
                            + premium_fraction.as_int(),
                    ) > MAX_AMOUNT
                    &&& *final(self) == *old(self)
                },
            },
    {
        let latest = self.query_cumulative_premium_fraction(vamm);
        let cumulative = match latest.checked_add(premium_fraction) {
            Some(c) => c,
            None => {
                return Err(EngineError::AmountOutOfRange);
            },
        };
        if cumulative.value > MAX_AMOUNT {
            return Err(EngineError::AmountOutOfRange);
        }
        let mut vamm_map = match self.vamm_maps.remove(&vamm) {
            Some(m) => m,
            None => VammMap::new_empty(),
        };
        vamm_map.cumulative_premium_fractions.push(cumulative);
        self.vamm_maps.insert(vamm, vamm_map);
        proof {
            assert(self.spec_premium_fractions(vamm) =~= old(self).spec_premium_fractions(
                vamm,
            ).push(cumulative));
        }
        Ok(())
    }

    /// Everything but the one market's funding record is unchanged.
    pub open spec fn same_but_vamm_maps_changed_at(self, other: EngineStorage, vamm: u64) -> bool {
        &&& self.config == other.config
        &&& self.state == other.state
        &&& self.positions@ == other.positions@
        &&& self.whitelist@ == other.whitelist@
        &&& self.tmp_swap == other.tmp_swap
        &&& self.tmp_liquidator == other.tmp_liquidator
        &&& self.sent_funds == other.sent_funds
    }

    /// Advances the market's last restriction block to the current
    /// height: from here until the end of the block, the restriction
    /// guard allows one position-changing action per position.
    pub fn enter_restriction_mode(&mut self, vamm: u64, block_height: u64)
        requires
            old(self).inv(),
        ensures
            final(self).inv(),
            final(self).spec_last_restriction_block(vamm) == block_height,
            final(self).spec_premium_fractions(vamm) == old(self).spec_premium_fractions(vamm),
            forall|v: u64|
                v != vamm ==> old(self).vamm_maps@.contains_key(v) == final(self).vamm_maps@.contains_key(v)
                    && (old(self).vamm_maps@.contains_key(v) ==> #[trigger] final(self).vamm_maps@[v]
                    == old(self).vamm_maps@[v]),
            final(self).same_but_vamm_maps_changed_at(*old(self), vamm),
    {
        let mut vamm_map = match self.vamm_maps.remove(&vamm) {
            Some(m) => m,
            None => VammMap::new_empty(),
        };
        vamm_map.last_restriction_block = block_height;
        self.vamm_maps.insert(vamm, vamm_map);
    }

    pub fn is_whitelisted(&self, trader: u64) -> (r: bool)
        ensures
            r == self.spec_whitelisted(trader),
    {
        self.whitelist.contains_key(&trader)
    }

    /// Adds an address to the whitelist for the capacity caps; only the
    /// pauser may do so.
    pub fn add_whitelist(&mut self, sender: u64, address: u64) -> (r: Result<(), EngineError>)
        requires
            old(self).inv(),
        ensures
            final(self).inv(),
            match r {
                Ok(()) => sender == old(self).config.pauser && final(self).whitelist@ == old(
                    self,
                ).whitelist@.insert(address, true) && final(self).same_but_whitelist(*old(self)),
                Err(e) => e == EngineError::Unauthorized && sender != old(self).config.pauser
                    && *final(self) == *old(self),
            },
    {
        if sender != self.config.pauser {
            return Err(EngineError::Unauthorized);
        }
        self.whitelist.insert(address, true);
        Ok(())
    }

    /// Removes an address from the whitelist; only the pauser may do so.
    pub fn remove_whitelist(&mut self, sender: u64, address: u64) -> (r: Result<(), EngineError>)
        requires
            old(self).inv(),
        ensures
            final(self).inv(),
            match r {
                Ok(()) => sender == old(self).config.pauser && final(self).whitelist@ == old(
                    self,
                ).whitelist@.remove(address) && final(self).same_but_whitelist(*old(self)),
                Err(e) => e == EngineError::Unauthorized && sender != old(self).config.pauser
                    && *final(self) == *old(self),
            },
    {
        if sender != self.config.pauser {
            return Err(EngineError::Unauthorized);
        }
        self.whitelist.remove(&address);
        Ok(())
    }

    /// Everything except the whitelist is unchanged.
    pub open spec fn same_but_whitelist(self, other: EngineStorage) -> bool {
        &&& self.config == other.config
        &&& self.state == other.state
        &&& self.positions@ == other.positions@
        &&& self.vamm_maps@ == other.vamm_maps@
        &&& self.tmp_swap == other.tmp_swap
        &&& self.tmp_liquidator == other.tmp_liquidator
        &&& self.sent_funds == other.sent_funds
    }

    /// Hands the pauser role to a new account; only the current pauser
    /// may.
    pub fn update_pauser(&mut self, sender: u64, pauser: u64) -> (r: Result<(), EngineError>)
        requires
            old(self).inv(),
        ensures
            final(self).inv(),
            match r {
                Ok(()) => {
                    &&& sender == old(self).config.pauser
                    &&& final(self).config == (Config { pauser, ..old(self).config })
                    &&& final(self).state == old(self).state
                    &&& final(self).positions@ == old(self).positions@
                    &&& final(self).vamm_maps@ == old(self).vamm_maps@
                    &&& final(self).whitelist@ == old(self).whitelist@
                    &&& final(self).tmp_swap == old(self).tmp_swap
                },
                Err(e) => {
                    &&& e == EngineError::Unauthorized
                    &&& sender != old(self).config.pauser
                    &&& *final(self) == *old(self)
                },
            },
    {
        if sender != self.config.pauser {
            return Err(EngineError::Unauthorized);
        }
        self.config.pauser = pauser;
        Ok(())
    }

    /// Reads a market's funding record as an owned copy; missing records
    /// read as the empty record.
    pub fn read_vamm_map(&self, vamm: u64) -> (r: VammMap)
        requires
            self.inv(),
        ensures
            r.last_restriction_block == self.spec_last_restriction_block(vamm),
            r.cumulative_premium_fractions@ == self.spec_premium_fractions(vamm),
            r.wf(),
    {
        match self.vamm_maps.get(&vamm) {
            Some(m) => {
                let n = m.cumulative_premium_fractions.len();
                let mut fractions: Vec<Integer> = Vec::new();
                let mut i: usize = 0;
                while i < n
                    invariant
                        n == m.cumulative_premium_fractions@.len(),
                        0 <= i <= n,
                        fractions@ == m.cumulative_premium_fractions@.subrange(0, i as int),
                    decreases n - i,
                {
                    fractions.push(m.cumulative_premium_fractions[i]);
                    proof {
                        assert(fractions@ =~= m.cumulative_premium_fractions@.subrange(
                            0,
                            i + 1,
                        ));
                    }
                    i = i + 1;
                }
                proof {
                    assert(fractions@ =~= m.cumulative_premium_fractions@);
                }
                VammMap {
                    last_restriction_block: m.last_restriction_block,
                    cumulative_premium_fractions: fractions,
                }
            },
            None => VammMap::new_empty(),
        }
    }

    /// Stores a market's funding record wholesale.
    pub fn store_vamm_map(&mut self, vamm: u64, vamm_map: VammMap)
        requires
            old(self).inv(),
            vamm_map.wf(),
        ensures
            final(self).inv(),
            final(self).spec_last_restriction_block(vamm) == vamm_map.last_restriction_block,
            final(self).spec_premium_fractions(vamm) == vamm_map.cumulative_premium_fractions@,
            final(self).vamm_maps@ == old(self).vamm_maps@.insert(vamm, vamm_map),
            final(self).same_but_vamm_maps_changed_at(*old(self), vamm),
    {
        self.vamm_maps.insert(vamm, vamm_map);
    }

    /// Pauses or unpauses the engine; only the pauser may, and only to
    /// flip the flag.
    pub fn set_pause(&mut self, sender: u64, pause: bool) -> (r: Result<(), EngineError>)
        requires
            old(self).inv(),
        ensures
            final(self).inv(),
            match r {
                Ok(()) => {
                    &&& sender == old(self).config.pauser
                    &&& old(self).state.pause != pause
                    &&& final(self).state == (State { pause, ..old(self).state })
                    &&& final(self).config == old(self).config
                    &&& final(self).positions@ == old(self).positions@
                    &&& final(self).vamm_maps@ == old(self).vamm_maps@
                    &&& final(self).whitelist@ == old(self).whitelist@
                    &&& final(self).tmp_swap == old(self).tmp_swap
                },
                Err(e) => {
                    &&& e == EngineError::Unauthorized
                    &&& (sender != old(self).config.pauser || old(self).state.pause == pause)
                    &&& *final(self) == *old(self)
                },
            },
    {
        if sender != self.config.pauser || self.state.pause == pause {
            return Err(EngineError::Unauthorized);
        }
        self.state.pause = pause;
        Ok(())
    }
}

} // verus!
