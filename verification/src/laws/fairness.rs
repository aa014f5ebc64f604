//! Equal stakes earn equal shares.

use vstd::prelude::*;
use crate::address::Address;
use crate::laws::arithmetic::{lemma_earned_bounds, lemma_floor_bounds};
use crate::operations::{deposit_outcome, reward_increment, stake_outcome};
use crate::rewards::{earned, settle};
use crate::state::{StakingPool, UserStake, SCALE};

verus! {

/// The pool and the two positions after both staked `amount` and `reward`
/// was deposited, when all three requests are accepted.
pub open spec fn both_staked_then_funded(
    pool: StakingPool,
    first: UserStake,
    second: UserStake,
    first_user: Address,
    second_user: Address,
    pool_key: Address,
    authority: Address,
    amount: u64,
    reward: u64,
    first_available: u64,
    second_available: u64,
    authority_available: u64,
    staked_at: i64,
    funded_at: i64,
) -> Option<(StakingPool, UserStake, UserStake)> {
    match stake_outcome(pool, first, first_user, pool_key, amount, first_available, staked_at) {
        Ok((joined, first_staked, _)) => match stake_outcome(
            joined,
            second,
            second_user,
            pool_key,
            amount,
            second_available,
            staked_at,
        ) {
            Ok((full, second_staked, _)) => match deposit_outcome(
                full,
                authority,
                reward,
                authority_available,
                funded_at,
            ) {
                Ok((funded, _)) => Some((funded, first_staked, second_staked)),
                Err(_) => None,
            },
            Err(_) => None,
        },
        Err(_) => None,
    }
}

/// Fair split: two empty positions stake the same positive `amount` at the
/// same time into a pool in which nothing else is staked, then `reward` is
/// deposited. When they settle, both are credited the same share. The share
/// is never more than half the reward, and short of it by less than `1 +
/// amount / SCALE`. For amounts up to `SCALE` that makes it half the reward,
/// rounded down, or one less.
pub proof fn law_fair_split(
    pool: StakingPool,
    first: UserStake,
    second: UserStake,
    first_user: Address,
    second_user: Address,
    pool_key: Address,
    authority: Address,
    amount: u64,
    reward: u64,
    first_available: u64,
    second_available: u64,
    authority_available: u64,
    staked_at: i64,
    funded_at: i64,
) -> (share: int)
    requires
        pool.total_staked == 0,
        first.staked_amount == 0,
        second.staked_amount == 0,
        amount > 0,
        both_staked_then_funded(
            pool,
            first,
            second,
            first_user,
            second_user,
            pool_key,
            authority,
            amount,
            reward,
            first_available,
            second_available,
            authority_available,
            staked_at,
            funded_at,
        ) is Some,
    ensures
        ({
            let (funded, first_staked, second_staked) = both_staked_then_funded(
                pool,
                first,
                second,
                first_user,
                second_user,
                pool_key,
                authority,
                amount,
                reward,
                first_available,
                second_available,
                authority_available,
                staked_at,
                funded_at,
            )->Some_0;
            &&& settle(funded, first_staked) matches Ok(settled) ==> settled.pending_rewards
                == first.pending_rewards + share
            &&& settle(funded, second_staked) matches Ok(settled) ==> settled.pending_rewards
                == second.pending_rewards + share
            &&& settle(funded, first_staked) is Ok <==> first.pending_rewards + share <= u64::MAX
            &&& settle(funded, second_staked) is Ok <==> second.pending_rewards + share <= u64::MAX
        }),
        share == earned(amount, reward_increment(reward, (2 * amount) as u64) as u128),
        0 <= 2 * share <= reward,
        (reward - 2 * share - 2) * SCALE < 2 * amount,
        amount <= SCALE ==> reward / 2 - 1 <= share <= reward / 2,
{
    let (funded, first_staked, second_staked) = both_staked_then_funded(
        pool,
        first,
        second,
        first_user,
        second_user,
        pool_key,
        authority,
        amount,
        reward,
        first_available,
        second_available,
        authority_available,
        staked_at,
        funded_at,
    )->Some_0;
    let total = 2 * amount as int;
    let funds = reward as int * SCALE as int;
    let advance = funds / total;
    assert(reward as nat * SCALE as nat == funds);
    assert(reward_increment(reward, (2 * amount) as u64) == advance);
    assert(funded.reward_per_token_stored - pool.reward_per_token_stored == advance);
    lemma_floor_bounds(funds, total);
    lemma_earned_bounds(amount, advance as u128);
    assert(total * advance == 2 * (amount * advance)) by (nonlinear_arith)
        requires
            total == 2 * amount,
    ;
    earned(amount, advance as u128) as int
}

} // verus!
