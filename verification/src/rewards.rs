//! The reward-per-token accumulator and the settlement of a position
//! against it.

use vstd::prelude::*;
use crate::error::ErrorCode;
use crate::state::{StakingPool, UserStake, SCALE};

verus! {

/// Rewards that `staked` units earn while the accumulator advances by
/// `delta`: `floor(staked * delta / SCALE)`.
pub open spec fn earned(staked: u64, delta: u128) -> nat {
    (staked as nat * delta as nat) / (SCALE as nat)
}

/// Settlement of a position against the pool's accumulator.
///
/// An empty position only moves its checkpoint. A non-empty one first
/// receives what it earned since its checkpoint; that fails when the
/// checkpoint lies ahead of the accumulator or when the pending balance
/// would leave `u64`.
pub open spec fn settle(pool: StakingPool, user_stake: UserStake) -> Result<UserStake, ErrorCode> {
    if user_stake.staked_amount == 0 {
        Ok(UserStake { reward_per_token_paid: pool.reward_per_token_stored, ..user_stake })
    } else if user_stake.reward_per_token_paid > pool.reward_per_token_stored {
        Err(ErrorCode::ArithmeticOverflow)
    } else {
        let delta = (pool.reward_per_token_stored - user_stake.reward_per_token_paid) as u128;
        let pending = user_stake.pending_rewards + earned(user_stake.staked_amount, delta);
        if pending > u64::MAX {
            Err(ErrorCode::ArithmeticOverflow)
        } else {
            Ok(
                UserStake {
                    pending_rewards: pending as u64,
                    reward_per_token_paid: pool.reward_per_token_stored,
                    ..user_stake
                },
            )
        }
    }
}

/// Brings a position's pending rewards up to date with the pool's
/// accumulator. On failure the position is left as it was.
pub fn update_rewards(pool: &StakingPool, user_stake: &mut UserStake) -> (r: Result<(), ErrorCode>)
    ensures
        match settle(*pool, *old(user_stake)) {
            Ok(settled) => r is Ok && *final(user_stake) == settled,
            Err(e) => r == Err::<(), ErrorCode>(e) && *final(user_stake) == *old(user_stake),
        },
        r is Ok ==> final(user_stake).in_step_with(pool),
        r is Ok ==> final(user_stake).pending_rewards >= old(user_stake).pending_rewards,
{
    if user_stake.staked_amount > 0 {
        if user_stake.reward_per_token_paid > pool.reward_per_token_stored {
            return Err(ErrorCode::ArithmeticOverflow);
        }
        let delta: u128 = pool.reward_per_token_stored - user_stake.reward_per_token_paid;
        let staked: u128 = user_stake.staked_amount as u128;
        let accrued: u128 = match staked.checked_mul(delta) {
            Some(product) => product / SCALE,
            None => {
                return Err(ErrorCode::ArithmeticOverflow);
            },
        };
        let room: u64 = u64::MAX - user_stake.pending_rewards;
        if accrued > room as u128 {
            return Err(ErrorCode::ArithmeticOverflow);
        }
        user_stake.pending_rewards = user_stake.pending_rewards + accrued as u64;
    }
    user_stake.reward_per_token_paid = pool.reward_per_token_stored;
    Ok(())
}

} // verus!
