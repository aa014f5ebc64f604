//! Rewards credited never exceed rewards deposited.
//!
//! Every rounding in the accumulator and in settling is downward, so what
//! the positions are due stays within what was paid in.

use vstd::prelude::*;
use crate::laws::accumulator::law_positions_in_step;
use crate::laws::arithmetic::{lemma_earned_bounds, lemma_floor_bounds};
use crate::laws::conservation::{law_step_surplus, lemma_sum_staked_nonnegative};
use crate::ledger::{lemma_step_shape, sum_staked, Ledger, Operation};
use crate::rewards::{earned, settle};
use crate::state::{StakingPool, UserStake, SCALE};

verus! {

/// What a position has been credited, scaled by [`SCALE`], plus what it has
/// earned and not yet been credited: `SCALE * (pending + claimed) + staked *
/// (stored - paid)`.
pub open spec fn reward_weight(pool: StakingPool, user_stake: UserStake) -> int {
    SCALE * (user_stake.pending_rewards + user_stake.total_rewards_claimed)
        + user_stake.staked_amount * (pool.reward_per_token_stored
        - user_stake.reward_per_token_paid)
}

/// Sum of the reward weights of `positions`.
pub open spec fn sum_reward_weights(pool: StakingPool, positions: Seq<UserStake>) -> int
    decreases positions.len(),
{
    if positions.len() == 0 {
        0
    } else {
        sum_reward_weights(pool, positions.drop_last()) + reward_weight(pool, positions.last())
    }
}

/// Everything a position was ever credited, claimed or not, plus what it
/// would be credited if it settled now.
pub open spec fn rewards_due(pool: StakingPool, user_stake: UserStake) -> int {
    user_stake.pending_rewards + user_stake.total_rewards_claimed + earned(
        user_stake.staked_amount,
        (pool.reward_per_token_stored - user_stake.reward_per_token_paid) as u128,
    )
}

/// Sum of the rewards due to `positions`.
pub open spec fn sum_rewards_due(pool: StakingPool, positions: Seq<UserStake>) -> int
    decreases positions.len(),
{
    if positions.len() == 0 {
        0
    } else {
        sum_rewards_due(pool, positions.drop_last()) + rewards_due(pool, positions.last())
    }
}

/// Replacing one position changes the sum of reward weights by the
/// difference of its weights.
pub proof fn lemma_sum_reward_weights_update(
    pool: StakingPool,
    positions: Seq<UserStake>,
    i: int,
    user_stake: UserStake,
)
    requires
        0 <= i < positions.len(),
    ensures
        sum_reward_weights(pool, positions.update(i, user_stake)) == sum_reward_weights(
            pool,
            positions,
        ) - reward_weight(pool, positions[i]) + reward_weight(pool, user_stake),
    decreases positions.len(),
{
    let updated = positions.update(i, user_stake);
    if i == positions.len() - 1 {
        assert(updated.drop_last() =~= positions.drop_last());
    } else {
        lemma_sum_reward_weights_update(pool, positions.drop_last(), i, user_stake);
        assert(updated.drop_last() =~= positions.drop_last().update(i, user_stake));
    }
}

/// When the accumulator advances, the sum of reward weights grows by the
/// sum of the balances times the advance.
pub proof fn lemma_sum_reward_weights_advance(
    before: StakingPool,
    after: StakingPool,
    positions: Seq<UserStake>,
)
    ensures
        sum_reward_weights(after, positions) == sum_reward_weights(before, positions) + sum_staked(
            positions,
        ) * (after.reward_per_token_stored - before.reward_per_token_stored),
    decreases positions.len(),
{
    let advance = after.reward_per_token_stored - before.reward_per_token_stored;
    if positions.len() > 0 {
        lemma_sum_reward_weights_advance(before, after, positions.drop_last());
        let last = positions.last();
        let rest = sum_staked(positions.drop_last());
        let staked = last.staked_amount as int;
        let gap = before.reward_per_token_stored - last.reward_per_token_paid;
        assert(staked * (gap + advance) == staked * gap + staked * advance) by (nonlinear_arith);
        assert((rest + staked) * advance == rest * advance + staked * advance)
            by (nonlinear_arith);
    } else {
        assert(0 * advance == 0);
    }
}

/// Settling never raises a position's reward weight: the credited share is
/// rounded down. Afterwards the weight is all credited.
pub proof fn lemma_settle_weight(pool: StakingPool, user_stake: UserStake)
    requires
        settle(pool, user_stake) is Ok,
    ensures
        reward_weight(pool, settle(pool, user_stake)->Ok_0) <= reward_weight(pool, user_stake),
        reward_weight(pool, settle(pool, user_stake)->Ok_0) == SCALE * (settle(
            pool,
            user_stake,
        )->Ok_0.pending_rewards + user_stake.total_rewards_claimed),
{
    let gap = pool.reward_per_token_stored - user_stake.reward_per_token_paid;
    assert(user_stake.staked_amount * 0 == 0);
    if user_stake.staked_amount == 0 {
        assert(0 * gap == 0);
    } else {
        lemma_earned_bounds(user_stake.staked_amount, gap as u128);
    }
}

/// A position that is in step with the pool is never due more than its
/// reward weight covers.
pub proof fn lemma_rewards_due_weight(pool: StakingPool, user_stake: UserStake)
    requires
        user_stake.in_step_with(&pool),
    ensures
        SCALE * rewards_due(pool, user_stake) <= reward_weight(pool, user_stake),
{
    lemma_earned_bounds(
        user_stake.staked_amount,
        (pool.reward_per_token_stored - user_stake.reward_per_token_paid) as u128,
    );
}

/// Positions that are in step with the pool are together never due more
/// than their reward weights cover.
pub proof fn lemma_sum_rewards_due_weight(ledger: Ledger)
    requires
        ledger.in_step(),
    ensures
        SCALE * sum_rewards_due(ledger.pool, ledger.positions) <= sum_reward_weights(
            ledger.pool,
            ledger.positions,
        ),
    decreases ledger.positions.len(),
{
    if ledger.positions.len() > 0 {
        let rest = Ledger { pool: ledger.pool, positions: ledger.positions.drop_last() };
        assert forall|i: int| 0 <= i < rest.positions.len() implies (
        #[trigger] rest.positions[i]).in_step_with(&rest.pool) by {
            assert(ledger.positions[i].in_step_with(&ledger.pool));
        }
        lemma_sum_rewards_due_weight(rest);
        assert(ledger.positions[ledger.positions.len() - 1].in_step_with(&ledger.pool));
        lemma_rewards_due_weight(ledger.pool, ledger.positions.last());
    }
}

/// A fresh ledger holds nothing, weighs nothing and is in step.
pub proof fn lemma_fresh_ledger(ledger: Ledger)
    requires
        ledger.fresh(),
    ensures
        ledger.in_step(),
        ledger.surplus() == 0,
        sum_reward_weights(ledger.pool, ledger.positions) == 0,
    decreases ledger.positions.len(),
{
    if ledger.positions.len() > 0 {
        let rest = Ledger { pool: ledger.pool, positions: ledger.positions.drop_last() };
        assert forall|i: int| 0 <= i < rest.positions.len() implies {
            &&& (#[trigger] rest.positions[i]).staked_amount == 0
            &&& rest.positions[i].pending_rewards == 0
            &&& rest.positions[i].total_rewards_claimed == 0
            &&& rest.positions[i].reward_per_token_paid == 0
        } by {
            assert(ledger.positions[i].staked_amount == 0);
        }
        lemma_fresh_ledger(rest);
        let last = ledger.positions[ledger.positions.len() - 1];
        assert(last.staked_amount == 0);
        assert(0 * (ledger.pool.reward_per_token_stored - last.reward_per_token_paid) == 0);
    }
    assert forall|i: int| 0 <= i < ledger.positions.len() implies (
    #[trigger] ledger.positions[i]).in_step_with(&ledger.pool) by {
        assert(ledger.positions[i].reward_per_token_paid == 0);
    }
}

/// One request raises the sum of reward weights by no more than `SCALE`
/// times the reward it deposits, as long as the pool's total covers the
/// positions' balances.
pub proof fn law_step_reward_weights(ledger: Ledger, op: Operation)
    requires
        ledger.surplus() >= 0,
    ensures
        sum_reward_weights(ledger.step(op).pool, ledger.step(op).positions) <= sum_reward_weights(
            ledger.pool,
            ledger.positions,
        ) + SCALE * ledger.step_deposit(op),
{
    let next = ledger.step(op);
    let advance = next.pool.reward_per_token_stored - ledger.pool.reward_per_token_stored;
    lemma_step_shape(ledger, op);
    if ledger.accepts(op) {
        match op.position() {
            Some(position) => {
                lemma_settle_weight(ledger.pool, ledger.positions[position]);
                assert(next.positions[position].staked_amount * 0 == 0);
                lemma_sum_reward_weights_update(
                    ledger.pool,
                    ledger.positions,
                    position,
                    next.positions[position],
                );
                lemma_sum_reward_weights_advance(ledger.pool, next.pool, next.positions);
                assert(sum_staked(next.positions) * 0 == 0);
            },
            None => {
                let staked = sum_staked(ledger.positions);
                lemma_sum_reward_weights_advance(ledger.pool, next.pool, ledger.positions);
                lemma_sum_staked_nonnegative(ledger.positions);
                if ledger.pool.total_staked > 0 {
                    let total = ledger.pool.total_staked as int;
                    let funds = ledger.step_deposit(op) * SCALE;
                    assert(advance == funds / total);
                    lemma_floor_bounds(funds, total);
                    assert(staked * advance <= total * advance) by (nonlinear_arith)
                        requires
                            0 <= staked <= total,
                            0 <= advance,
                    ;
                } else {
                    assert(staked * 0 == 0);
                }
            },
        }
    }
}

/// Rewards are covered, in scaled units: over any sequence of requests the
/// sum of reward weights grows by no more than `SCALE` times the rewards
/// deposited, as long as the pool's total covers the positions' balances at
/// the start.
pub proof fn law_reward_weights_covered(ledger: Ledger, ops: Seq<Operation>)
    requires
        ledger.surplus() >= 0,
    ensures
        ledger.run(ops).surplus() >= 0,
        sum_reward_weights(ledger.run(ops).pool, ledger.run(ops).positions) <= sum_reward_weights(
            ledger.pool,
            ledger.positions,
        ) + SCALE * ledger.deposited(ops),
    decreases ops.len(),
{
    if ops.len() > 0 {
        let before = ledger.run(ops.drop_last());
        law_reward_weights_covered(ledger, ops.drop_last());
        law_step_surplus(before, ops.last());
        law_step_reward_weights(before, ops.last());
    }
}

/// Rewards are covered: starting from a pool that was just created, with
/// positions that never held anything, whatever is requested, the rewards
/// that all positions together have claimed, have pending or would be
/// credited on settling never exceed the rewards deposited.
pub proof fn law_rewards_covered(ledger: Ledger, ops: Seq<Operation>)
    requires
        ledger.fresh(),
    ensures
        sum_rewards_due(ledger.run(ops).pool, ledger.run(ops).positions) <= ledger.deposited(ops),
{
    lemma_fresh_ledger(ledger);
    law_reward_weights_covered(ledger, ops);
    law_positions_in_step(ledger, ops);
    lemma_sum_rewards_due_weight(ledger.run(ops));
}

} // verus!
