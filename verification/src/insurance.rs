//! The insurance reserve's market registry: which price curves the
//! engine recognizes, owner-gated registration, and the engine-gated
//! withdrawal used to cover bad debt. Token balances and transfers live
//! with the host; the registry only decides.

use vstd::prelude::*;

verus! {

use crate::error::EngineError;

/// Most markets one registry will hold.
pub const VAMM_LIMIT: usize = 32;

/// The insurance reserve's own state: its owner, the engine it backs,
/// and the registered markets.
pub struct InsuranceFund {
    pub owner: u64,
    pub engine: u64,
    pub vamms: Vec<u64>,
}

impl InsuranceFund {
    /// No market registered twice, and no more than the limit.
    pub open spec fn inv(self) -> bool {
        &&& forall|i: int, j: int|
            0 <= i < j < self.vamms@.len() ==> self.vamms@[i] != self.vamms@[j]
        &&& self.vamms@.len() <= VAMM_LIMIT
    }

    pub fn new(owner: u64, engine: u64) -> (r: InsuranceFund)
        ensures
            r.inv(),
            r.owner == owner,
            r.engine == engine,
            r.vamms@ =~= Seq::<u64>::empty(),
    {
        InsuranceFund { owner, engine, vamms: Vec::new() }
    }

    /// Hands ownership to a new account; only the owner may.
    pub fn update_owner(&mut self, sender: u64, new_owner: u64) -> (r: Result<(), EngineError>)
        requires
            old(self).inv(),
        ensures
            final(self).inv(),
            match r {
                Ok(()) => sender == old(self).owner && final(self).owner == new_owner
                    && final(self).engine == old(self).engine && final(self).vamms@ == old(
                    self,
                ).vamms@,
                Err(e) => e == EngineError::Unauthorized && sender != old(self).owner
                    && *final(self) == *old(self),
            },
    {
        if sender != self.owner {
            return Err(EngineError::Unauthorized);
        }
        self.owner = new_owner;
        Ok(())
    }

    /// Whether the market is a registered price curve.
    pub fn is_vamm(&self, vamm: u64) -> (r: bool)
        ensures
            r == self.vamms@.contains(vamm),
    {
        let n = self.vamms.len();
        let mut i: usize = 0;
        while i < n
            invariant
                n == self.vamms@.len(),
                0 <= i <= n,
                forall|k: int| 0 <= k < i ==> self.vamms@[k] != vamm,
            decreases n - i,
        {
            if self.vamms[i] == vamm {
                return true;
            }
            i = i + 1;
        }
        false
    }

    /// Registers a market; only the owner may, the market's decimal
    /// scale must match the engine's, and the registry must have room.
    pub fn add_vamm(
        &mut self,
        sender: u64,
        vamm: u64,
        engine_decimals: u128,
        vamm_decimals: u128,
    ) -> (r: Result<(), EngineError>)
        requires
            old(self).inv(),
        ensures
            final(self).inv(),
            match r {
                Ok(()) => {
                    &&& sender == old(self).owner
                    &&& engine_decimals == vamm_decimals
                    &&& !old(self).vamms@.contains(vamm)
                    &&& old(self).vamms@.len() < VAMM_LIMIT
                    &&& final(self).vamms@ == old(self).vamms@.push(vamm)
                    &&& final(self).owner == old(self).owner
                    &&& final(self).engine == old(self).engine
                },
                Err(e) => {
                    &&& *final(self) == *old(self)
                    &&& e == (if sender != old(self).owner {
                        EngineError::Unauthorized
                    } else if engine_decimals != vamm_decimals {
                        EngineError::DecimalsMismatch
                    } else if old(self).vamms@.contains(vamm) {
                        EngineError::VammAlreadyRegistered
                    } else {
                        EngineError::VammLimitReached
                    })
                    &&& (sender != old(self).owner || engine_decimals != vamm_decimals || old(
                        self,
                    ).vamms@.contains(vamm) || old(self).vamms@.len() >= VAMM_LIMIT)
                },
            },
    {
        if sender != self.owner {
            return Err(EngineError::Unauthorized);
        }
        if engine_decimals != vamm_decimals {
            return Err(EngineError::DecimalsMismatch);
        }
        if self.is_vamm(vamm) {
            return Err(EngineError::VammAlreadyRegistered);
        }
        if self.vamms.len() >= VAMM_LIMIT {
            return Err(EngineError::VammLimitReached);
        }
        self.vamms.push(vamm);
        proof {
            assert forall|i: int, j: int|
                0 <= i < j < self.vamms@.len() implies self.vamms@[i] != self.vamms@[j] by {
                if j == self.vamms@.len() - 1 {
                    assert(!old(self).vamms@.contains(vamm));
                    assert(old(self).vamms@[i] == self.vamms@[i]);
                }
            }
        }
        Ok(())
    }

    /// Unregisters a market; only the owner may, and the market must be
    /// registered.
    pub fn remove_vamm(&mut self, sender: u64, vamm: u64) -> (r: Result<(), EngineError>)
        requires
            old(self).inv(),
        ensures
            final(self).inv(),
            match r {
                Ok(()) => {
                    &&& sender == old(self).owner
                    &&& old(self).vamms@.contains(vamm)
                    &&& !final(self).vamms@.contains(vamm)
                    &&& final(self).vamms@.to_multiset() == old(self).vamms@.to_multiset().remove(
                        vamm,
                    )
                    &&& final(self).owner == old(self).owner
                    &&& final(self).engine == old(self).engine
                },
                Err(e) => {
                    &&& *final(self) == *old(self)
                    &&& e == (if sender != old(self).owner {
                        EngineError::Unauthorized
                    } else {
                        EngineError::VammNotRegistered
                    })
                    &&& (sender != old(self).owner || !old(self).vamms@.contains(vamm))
                },
            },
    {
        if sender != self.owner {
            return Err(EngineError::Unauthorized);
        }
        let n = self.vamms.len();
        let mut i: usize = 0;
        while i < n
            invariant
                *self == *old(self),
                old(self).inv(),
                sender == old(self).owner,
                n == self.vamms@.len(),
                0 <= i <= n,
                forall|k: int| 0 <= k < i ==> self.vamms@[k] != vamm,
            decreases n - i,
        {
            if self.vamms[i] == vamm {
                let ghost pre = self.vamms@;
                self.vamms.remove(i);
                proof {
                    assert(pre[i as int] == vamm);
                    assert(self.vamms@ == pre.remove(i as int));
                    assert forall|k: int|
                        0 <= k < self.vamms@.len() implies self.vamms@[k] != vamm by {
                        if k < i {
                            assert(self.vamms@[k] == pre[k]);
                        } else {
                            assert(i < k + 1 && k + 1 < pre.len());
                            assert(pre[i as int] != pre[k + 1]) by {
                                assert(old(self).inv());
                            }
                            assert(self.vamms@[k] == pre[k + 1]);
                        }
                    }
                    pre.to_multiset_ensures();
                    assert(self.vamms@.to_multiset() =~= pre.to_multiset().remove(vamm));
                }
                return Ok(());
            }
            i = i + 1;
        }
        Err(EngineError::VammNotRegistered)
    }

    /// The shutdown list: every registered market, for the host to send
    /// each a close instruction. Only the owner may ask.
    pub fn shutdown_all_vamm(&self, sender: u64) -> (r: Result<Vec<u64>, EngineError>)
        ensures
            match r {
                Ok(list) => sender == self.owner && list@ == self.vamms@,
                Err(e) => e == EngineError::Unauthorized && sender != self.owner,
            },
    {
        if sender != self.owner {
            return Err(EngineError::Unauthorized);
        }
        let n = self.vamms.len();
        let mut list: Vec<u64> = Vec::new();
        let mut i: usize = 0;
        while i < n
            invariant
                n == self.vamms@.len(),
                0 <= i <= n,
                list@ == self.vamms@.subrange(0, i as int),
            decreases n - i,
        {
            list.push(self.vamms[i]);
            proof {
                assert(list@ =~= self.vamms@.subrange(0, i + 1));
            }
            i = i + 1;
        }
        proof {
            assert(list@ =~= self.vamms@);
        }
        Ok(list)
    }

    /// Authorizes a withdrawal toward the engine, covering realized bad
    /// debt: only the engine itself may draw. The host performs the
    /// transfer of the returned amount.
    pub fn withdraw(&self, sender: u64, amount: u128) -> (r: Result<u128, EngineError>)
        ensures
            match r {
                Ok(a) => sender == self.engine && a == amount,
                Err(e) => e == EngineError::Unauthorized && sender != self.engine,
            },
    {
        if sender != self.engine {
            return Err(EngineError::Unauthorized);
        }
        Ok(amount)
    }
}

} // verus!
