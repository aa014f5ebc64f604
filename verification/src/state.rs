//! The two state records: one per pool, one per (pool, user) pair.

use vstd::prelude::*;
use crate::address::Address;

verus! {

/// Fixed-point factor of the reward-per-token accumulator: 10^18.
pub const SCALE: u128 = 1_000_000_000_000_000_000;

/// Largest admissible instant-unstake fee, in basis points: 100%.
pub const MAX_FEE_BPS: u16 = 10_000;

/// The shared state of one pool.
#[derive(Clone, Copy, Debug, PartialEq, Eq)]
pub struct StakingPool {
    /// The only account allowed to fund rewards.
    pub authority: Address,
    pub stake_mint: Address,
    pub stake_vault: Address,
    pub reward_vault: Address,
    /// Sum of the locked balances of all positions.
    pub total_staked: u64,
    /// Number of positions with a non-zero locked balance.
    pub total_stakers: u64,
    pub reward_duration: i64,
    /// Time of the last reward deposit.
    pub last_reward_time: i64,
    /// Cumulative reward per staked unit, scaled by [`SCALE`]. Never decreases.
    pub reward_per_token_stored: u128,
    pub min_stake_amount: u64,
    /// Instant-unstake fee in basis points.
    pub instant_unstake_fee: u16,
    pub bump: u8,
}

/// One user's position in a pool.
#[derive(Clone, Copy, Debug, PartialEq, Eq)]
pub struct UserStake {
    pub owner: Address,
    pub pool: Address,
    /// The locked balance.
    pub staked_amount: u64,
    /// When the position last went from empty to non-empty.
    pub stake_time: i64,
    /// The pool's accumulator at the last settlement of this position.
    pub reward_per_token_paid: u128,
    /// Accrued rewards not yet claimed.
    pub pending_rewards: u64,
    /// Lifetime total of claimed rewards.
    pub total_rewards_claimed: u64,
}

impl StakingPool {
    /// A pool is well formed when its fee is at most 100%.
    pub open spec fn wf(&self) -> bool {
        self.instant_unstake_fee <= MAX_FEE_BPS
    }

    /// Two states of a pool with the same configuration: everything but the
    /// counters, the accumulator and the time of the last deposit.
    pub open spec fn same_configuration(&self, other: StakingPool) -> bool {
        &&& self.authority == other.authority
        &&& self.stake_mint == other.stake_mint
        &&& self.stake_vault == other.stake_vault
        &&& self.reward_vault == other.reward_vault
        &&& self.reward_duration == other.reward_duration
        &&& self.min_stake_amount == other.min_stake_amount
        &&& self.instant_unstake_fee == other.instant_unstake_fee
        &&& self.bump == other.bump
    }
}

impl UserStake {
    /// A position is in step with a pool when its checkpoint does not lie
    /// ahead of the pool's accumulator.
    pub open spec fn in_step_with(&self, pool: &StakingPool) -> bool {
        self.reward_per_token_paid <= pool.reward_per_token_stored
    }

    /// A position that never held anything.
    pub fn empty(owner: Address, pool: Address) -> (u: UserStake)
        ensures
            u == (UserStake {
                owner,
                pool,
                staked_amount: 0,
                stake_time: 0,
                reward_per_token_paid: 0,
                pending_rewards: 0,
                total_rewards_claimed: 0,
            }),
    {
        UserStake {
            owner,
            pool,
            staked_amount: 0,
            stake_time: 0,
            reward_per_token_paid: 0,
            pending_rewards: 0,
            total_rewards_claimed: 0,
        }
    }
}

} // verus!
