//! Staking bookkeeping for the fee pool's reward program: stake and
//! unstake balances, pause control, and claimable rewards.
//!
//! Reward accrual itself runs in an external distributor; each handler
//! here receives the rewards that accrual reported for distribution and
//! returns them for the host to forward, touching only the balances the
//! staking contract owns. Token transfers and fund checks stay with the
//! host.

use std::collections::HashMap;
use vstd::prelude::*;

verus! {

broadcast use vstd::std_specs::hash::group_hash_axioms;

/// Hook carried by a token transfer into the staking contract.
#[derive(Clone, Copy, Debug, PartialEq, Eq, Structural)]
pub enum Cw20HookMsg {
    Stake {},
}

/// Read-only queries the staking contract answers.
#[derive(Clone, Copy, Debug, PartialEq, Eq, Structural)]
pub enum QueryMsg {
    Config {},
    State {},
    Owner {},
    GetClaimable { user: u64 },
    GetUserStakedAmount { user: u64 },
    GetTotalStakedAmount {},
    GetOwnershipProposal {},
}

/// Errors of the staking contract.
#[derive(Clone, Copy, Debug, PartialEq, Eq, Structural)]
pub enum ContractError {
    Unauthorized,
    Paused,
    NotPaused,
    InvalidFunds,
    /// Balance arithmetic cannot be honoured (an unstake larger than the
    /// stake, or a balance that would no longer fit).
    Std,
}

/// One staker's record.
#[derive(Clone, Copy, Debug, PartialEq, Eq, Structural)]
pub struct UserStake {
    pub staked_amounts: u128,
    pub claimable_rewards: u128,
    pub previous_cumulative_rewards_per_token: u128,
    pub cumulative_rewards: u128,
}

impl UserStake {
    pub open spec fn spec_default() -> UserStake {
        UserStake {
            staked_amounts: 0,
            claimable_rewards: 0,
            previous_cumulative_rewards_per_token: 0,
            cumulative_rewards: 0,
        }
    }

    pub fn new_default() -> (r: UserStake)
        ensures
            r == UserStake::spec_default(),
    {
        UserStake {
            staked_amounts: 0,
            claimable_rewards: 0,
            previous_cumulative_rewards_per_token: 0,
            cumulative_rewards: 0,
        }
    }
}

/// The staking contract's own state.
pub struct StakingState {
    pub owner: u64,
    pub is_open: bool,
    pub tokens_per_interval: u128,
    pub total_staked: u128,
    pub stakes: HashMap<u64, UserStake>,
}

impl StakingState {
    pub open spec fn spec_stake(self, user: u64) -> UserStake {
        if self.stakes@.contains_key(user) {
            self.stakes@[user]
        } else {
            UserStake::spec_default()
        }
    }

    pub fn new(owner: u64, tokens_per_interval: u128) -> (r: StakingState)
        ensures
            r.owner == owner,
            r.is_open == false,
            r.tokens_per_interval == tokens_per_interval,
            r.total_staked == 0,
            r.stakes@ == Map::<u64, UserStake>::empty(),
    {
        StakingState {
            owner,
            is_open: false,
            tokens_per_interval,
            total_staked: 0,
            stakes: HashMap::new(),
        }
    }

    pub fn get_stake(&self, user: u64) -> (r: UserStake)
        ensures
            r == self.spec_stake(user),
    {
        match self.stakes.get(&user) {
            Some(s) => *s,
            None => UserStake::new_default(),
        }
    }

    /// Owner-gated update of the reward emission rate.
    pub fn handle_update_config(&mut self, sender: u64, tokens_per_interval: Option<u128>) -> (r:
        Result<(), ContractError>)
        ensures
            match r {
                Ok(()) => {
                    &&& sender == old(self).owner
                    &&& final(self).tokens_per_interval == (if tokens_per_interval is Some {
                        tokens_per_interval->0
                    } else {
                        old(self).tokens_per_interval
                    })
                    &&& final(self).owner == old(self).owner
                    &&& final(self).is_open == old(self).is_open
                    &&& final(self).total_staked == old(self).total_staked
                    &&& final(self).stakes@ == old(self).stakes@
                },
                Err(e) => e == ContractError::Unauthorized && sender != old(self).owner
                    && *final(self) == *old(self),
            },
    {
        if sender != self.owner {
            return Err(ContractError::Unauthorized);
        }
        if let Some(t) = tokens_per_interval {
            self.tokens_per_interval = t;
        }
        Ok(())
    }

    /// Owner-gated pause; rejected when already paused.
    pub fn handle_pause(&mut self, sender: u64) -> (r: Result<(), ContractError>)
        ensures
            match r {
                Ok(()) => sender == old(self).owner && old(self).is_open && *final(self)
                    == (StakingState { is_open: false, ..*old(self) }),
                Err(e) => {
                    &&& *final(self) == *old(self)
                    &&& e == (if sender != old(self).owner {
                        ContractError::Unauthorized
                    } else {
                        ContractError::Paused
                    })
                    &&& (sender != old(self).owner || !old(self).is_open)
                },
            },
    {
        if sender != self.owner {
            return Err(ContractError::Unauthorized);
        }
        if !self.is_open {
            return Err(ContractError::Paused);
        }
        self.is_open = false;
        Ok(())
    }

    /// Owner-gated unpause; rejected when already open.
    pub fn handle_unpause(&mut self, sender: u64) -> (r: Result<(), ContractError>)
        ensures
            match r {
                Ok(()) => sender == old(self).owner && !old(self).is_open && *final(self)
                    == (StakingState { is_open: true, ..*old(self) }),
                Err(e) => {
                    &&& *final(self) == *old(self)
                    &&& e == (if sender != old(self).owner {
                        ContractError::Unauthorized
                    } else {
                        ContractError::NotPaused
                    })
                    &&& (sender != old(self).owner || old(self).is_open)
                },
            },
    {
        if sender != self.owner {
            return Err(ContractError::Unauthorized);
        }
        if self.is_open {
            return Err(ContractError::NotPaused);
        }
        self.is_open = true;
        Ok(())
    }

    /// Pays out a staker's claimable rewards, zeroing them. `rewards` is
    /// what the external accrual reported for distribution; it flows
    /// back to the host untouched together with the claimed amount.
    pub fn handle_claim(&mut self, sender: u64, rewards: u128) -> (r: Result<
        (u128, u128),
        ContractError,
    >)
        ensures
            match r {
                Ok((claimed, distribute)) => {
                    &&& old(self).is_open
                    &&& claimed == old(self).spec_stake(sender).claimable_rewards
                    &&& distribute == rewards
                    &&& final(self).stakes@ == old(self).stakes@.insert(
                        sender,
                        UserStake { claimable_rewards: 0, ..old(self).spec_stake(sender) },
                    )
                    &&& final(self).owner == old(self).owner
                    &&& final(self).is_open == old(self).is_open
                    &&& final(self).tokens_per_interval == old(self).tokens_per_interval
                    &&& final(self).total_staked == old(self).total_staked
                },
                Err(e) => e == ContractError::Paused && !old(self).is_open
                    && *final(self) == *old(self),
            },
    {
        if !self.is_open {
            return Err(ContractError::Paused);
        }
        let mut stake = self.get_stake(sender);
        let claimed = stake.claimable_rewards;
        stake.claimable_rewards = 0;
        self.stakes.insert(sender, stake);
        Ok((claimed, rewards))
    }

    /// Stakes the native funds the host verified were sent. Rejected
    /// when paused or when nothing was sent; fails loudly when a balance
    /// would no longer fit.
    pub fn handle_stake(&mut self, sender: u64, sent_funds: u128, rewards: u128) -> (r: Result<
        u128,
        ContractError,
    >)
        ensures
            match r {
                Ok(distribute) => {
                    &&& old(self).is_open
                    &&& sent_funds > 0
                    &&& distribute == rewards
                    &&& final(self).stakes@ == old(self).stakes@.insert(
                        sender,
                        UserStake {
                            staked_amounts: (old(self).spec_stake(sender).staked_amounts
                                + sent_funds) as u128,
                            ..old(self).spec_stake(sender)
                        },
                    )
                    &&& final(self).total_staked == old(self).total_staked + sent_funds
                    &&& final(self).owner == old(self).owner
                    &&& final(self).is_open == old(self).is_open
                    &&& final(self).tokens_per_interval == old(self).tokens_per_interval
                },
                Err(e) => {
                    &&& *final(self) == *old(self)
                    &&& e == (if !old(self).is_open {
                        ContractError::Paused
                    } else if sent_funds == 0 {
                        ContractError::InvalidFunds
                    } else {
                        ContractError::Std
                    })
                    &&& (!old(self).is_open || sent_funds == 0 || old(self).spec_stake(
                        sender,
                    ).staked_amounts + sent_funds > u128::MAX || old(self).total_staked + sent_funds
                        > u128::MAX)
                },
            },
    {
        if !self.is_open {
            return Err(ContractError::Paused);
        }
        if sent_funds == 0 {
            return Err(ContractError::InvalidFunds);
        }
        let mut stake = self.get_stake(sender);
        if sent_funds > u128::MAX - stake.staked_amounts || sent_funds > u128::MAX
            - self.total_staked {
            return Err(ContractError::Std);
        }
        stake.staked_amounts = stake.staked_amounts + sent_funds;
        self.stakes.insert(sender, stake);
        self.total_staked = self.total_staked + sent_funds;
        Ok(rewards)
    }

    /// Unstakes an amount; rejected when paused, and failing loudly when
    /// the staker's balance does not cover it.
    pub fn handle_unstake(&mut self, sender: u64, amount: u128, rewards: u128) -> (r: Result<
        u128,
        ContractError,
    >)
        ensures
            match r {
                Ok(distribute) => {
                    &&& old(self).is_open
                    &&& amount <= old(self).spec_stake(sender).staked_amounts
                    &&& amount <= old(self).total_staked
                    &&& distribute == rewards
                    &&& final(self).stakes@ == old(self).stakes@.insert(
                        sender,
                        UserStake {
                            staked_amounts: (old(self).spec_stake(sender).staked_amounts
                                - amount) as u128,
                            ..old(self).spec_stake(sender)
                        },
                    )
                    &&& final(self).total_staked == old(self).total_staked - amount
                    &&& final(self).owner == old(self).owner
                    &&& final(self).is_open == old(self).is_open
                    &&& final(self).tokens_per_interval == old(self).tokens_per_interval
                },
                Err(e) => {
                    &&& *final(self) == *old(self)
                    &&& e == (if !old(self).is_open {
                        ContractError::Paused
                    } else {
                        ContractError::Std
                    })
                    &&& (!old(self).is_open || amount > old(self).spec_stake(
                        sender,
                    ).staked_amounts || amount > old(self).total_staked)
                },
            },
    {
        if !self.is_open {
            return Err(ContractError::Paused);
        }
        let mut stake = self.get_stake(sender);
        if amount > stake.staked_amounts || amount > self.total_staked {
            return Err(ContractError::Std);
        }
        stake.staked_amounts = stake.staked_amounts - amount;
        self.stakes.insert(sender, stake);
        self.total_staked = self.total_staked - amount;
        Ok(rewards)
    }
}

} // verus!
