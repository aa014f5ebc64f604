//! The pool's counters agree with its positions.

use vstd::prelude::*;
use crate::laws::accumulator::law_configuration_fixed;
use crate::ledger::{
    count_stakers, lemma_run_prefix, lemma_step_shape, staker, sum_staked, Ledger, Operation,
};
use crate::state::UserStake;

verus! {

/// Replacing one position changes the sum by the difference of its balances.
pub proof fn lemma_sum_staked_update(positions: Seq<UserStake>, i: int, user_stake: UserStake)
    requires
        0 <= i < positions.len(),
    ensures
        sum_staked(positions.update(i, user_stake)) == sum_staked(positions)
            - positions[i].staked_amount + user_stake.staked_amount,
    decreases positions.len(),
{
    let updated = positions.update(i, user_stake);
    if i == positions.len() - 1 {
        assert(updated.drop_last() =~= positions.drop_last());
    } else {
        lemma_sum_staked_update(positions.drop_last(), i, user_stake);
        assert(updated.drop_last() =~= positions.drop_last().update(i, user_stake));
    }
}

/// A sum of balances is not negative.
pub proof fn lemma_sum_staked_nonnegative(positions: Seq<UserStake>)
    ensures
        sum_staked(positions) >= 0,
    decreases positions.len(),
{
    if positions.len() > 0 {
        lemma_sum_staked_nonnegative(positions.drop_last());
    }
}

/// Replacing one position changes the count of stakers by whether the old
/// and the new balance are non-zero.
pub proof fn lemma_count_stakers_update(positions: Seq<UserStake>, i: int, user_stake: UserStake)
    requires
        0 <= i < positions.len(),
    ensures
        count_stakers(positions.update(i, user_stake)) == count_stakers(positions) - staker(
            positions[i],
        ) + staker(user_stake),
    decreases positions.len(),
{
    let updated = positions.update(i, user_stake);
    if i == positions.len() - 1 {
        assert(updated.drop_last() =~= positions.drop_last());
    } else {
        lemma_count_stakers_update(positions.drop_last(), i, user_stake);
        assert(updated.drop_last() =~= positions.drop_last().update(i, user_stake));
    }
}

/// One request moves the surplus of the pool's total over its positions by
/// exactly the fee it withholds.
pub proof fn law_step_surplus(ledger: Ledger, op: Operation)
    ensures
        ledger.step(op).surplus() == ledger.surplus() + ledger.step_fee(op),
        ledger.step(op).positions.len() == ledger.positions.len(),
{
    lemma_step_shape(ledger, op);
    if ledger.accepts(op) {
        if let Some(position) = op.position() {
            lemma_sum_staked_update(
                ledger.positions,
                position,
                ledger.step(op).positions[position],
            );
        }
    }
}

/// Conservation, fees counted: after any sequence of requests the pool's
/// total exceeds the sum of its positions' balances by what it did before,
/// plus the fees that instant withdrawals withheld on the way.
pub proof fn law_conservation_up_to_fees(ledger: Ledger, ops: Seq<Operation>)
    ensures
        ledger.run(ops).surplus() == ledger.surplus() + ledger.fees_withheld(ops),
        ledger.run(ops).positions.len() == ledger.positions.len(),
    decreases ops.len(),
{
    if ops.len() > 0 {
        law_conservation_up_to_fees(ledger, ops.drop_last());
        law_step_surplus(ledger.run(ops.drop_last()), ops.last());
    }
}

/// Conservation: in a ledger whose total is the sum of its positions'
/// balances, it still is after every request of a sequence that holds no
/// instant withdrawal.
pub proof fn law_conservation(ledger: Ledger, ops: Seq<Operation>, k: int)
    requires
        ledger.conserved(),
        forall|i: int| 0 <= i < ops.len() ==> !(#[trigger] ops[i] is InstantUnstake),
        0 <= k <= ops.len(),
    ensures
        ledger.run(ops.take(k)).conserved(),
    decreases k,
{
    if k > 0 {
        law_conservation(ledger, ops, k - 1);
        lemma_run_prefix(ledger, ops, k);
        assert(!(ops[k - 1] is InstantUnstake));
        law_step_surplus(ledger.run(ops.take(k - 1)), ops[k - 1]);
    }
}

/// In a pool with a non-zero minimum stake, one request keeps the staker
/// counter equal to the number of positions that hold something.
pub proof fn law_step_stakers(ledger: Ledger, op: Operation)
    requires
        ledger.stakers_counted(),
        ledger.pool.min_stake_amount > 0,
    ensures
        ledger.step(op).stakers_counted(),
{
    lemma_step_shape(ledger, op);
    if ledger.accepts(op) {
        if let Some(position) = op.position() {
            lemma_count_stakers_update(
                ledger.positions,
                position,
                ledger.step(op).positions[position],
            );
        }
    }
}

/// Staker count: in a pool with a non-zero minimum stake, a staker counter
/// that equals the number of positions that hold something still does after
/// every request of any sequence.
pub proof fn law_staker_count(ledger: Ledger, ops: Seq<Operation>, k: int)
    requires
        ledger.stakers_counted(),
        ledger.pool.min_stake_amount > 0,
        0 <= k <= ops.len(),
    ensures
        ledger.run(ops.take(k)).stakers_counted(),
    decreases k,
{
    if k > 0 {
        law_staker_count(ledger, ops, k - 1);
        lemma_run_prefix(ledger, ops, k);
        law_configuration_fixed(ledger, ops.take(k - 1));
        law_step_stakers(ledger.run(ops.take(k - 1)), ops[k - 1]);
    }
}

} // verus!
