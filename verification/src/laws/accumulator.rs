//! The accumulator only moves forward, and nothing else about a pool moves
//! at all.

use vstd::prelude::*;
use crate::ledger::{lemma_run_prefix, Ledger, Operation};
use crate::rewards::{earned, settle};
use crate::state::{StakingPool, UserStake};

verus! {

/// One request never lowers the accumulator, and leaves the pool's
/// configuration alone.
pub proof fn law_step_accumulator(ledger: Ledger, op: Operation)
    ensures
        ledger.step(op).pool.reward_per_token_stored >= ledger.pool.reward_per_token_stored,
        ledger.step(op).pool.same_configuration(ledger.pool),
{
}

/// The accumulator never decreases: along any sequence of requests a later
/// state's accumulator is at least an earlier state's.
pub proof fn law_accumulator_monotonic(ledger: Ledger, ops: Seq<Operation>, i: int, j: int)
    requires
        0 <= i <= j <= ops.len(),
    ensures
        ledger.run(ops.take(i)).pool.reward_per_token_stored <= ledger.run(
            ops.take(j),
        ).pool.reward_per_token_stored,
    decreases j - i,
{
    if i < j {
        law_accumulator_monotonic(ledger, ops, i, j - 1);
        lemma_run_prefix(ledger, ops, j);
        law_step_accumulator(ledger.run(ops.take(j - 1)), ops[j - 1]);
    }
}

/// The configuration of a pool is written once: no sequence of requests
/// changes it.
pub proof fn law_configuration_fixed(ledger: Ledger, ops: Seq<Operation>)
    ensures
        ledger.run(ops).pool.same_configuration(ledger.pool),
    decreases ops.len(),
{
    if ops.len() > 0 {
        law_configuration_fixed(ledger, ops.drop_last());
        law_step_accumulator(ledger.run(ops.drop_last()), ops.last());
    }
}

/// One request keeps every position in step with the pool.
pub proof fn law_step_in_step(ledger: Ledger, op: Operation)
    requires
        ledger.in_step(),
    ensures
        ledger.step(op).in_step(),
{
    let next = ledger.step(op);
    assert forall|i: int| 0 <= i < next.positions.len() implies (
    #[trigger] next.positions[i]).in_step_with(&next.pool) by {
        assert(ledger.positions[i].in_step_with(&ledger.pool));
    }
}

/// No checkpoint overtakes the accumulator: positions that are in step with
/// the pool stay so under any sequence of requests.
pub proof fn law_positions_in_step(ledger: Ledger, ops: Seq<Operation>)
    requires
        ledger.in_step(),
    ensures
        ledger.run(ops).in_step(),
    decreases ops.len(),
{
    if ops.len() > 0 {
        law_positions_in_step(ledger, ops.drop_last());
        law_step_in_step(ledger.run(ops.drop_last()), ops.last());
    }
}

/// Settling is idempotent: a position that was just settled settles again
/// to itself, so its pending rewards do not move the second time.
pub proof fn law_settle_idempotent(pool: StakingPool, user_stake: UserStake)
    requires
        settle(pool, user_stake) is Ok,
    ensures
        settle(pool, settle(pool, user_stake)->Ok_0) == settle(pool, user_stake),
{
    let once = settle(pool, user_stake)->Ok_0;
    assert(earned(once.staked_amount, 0) == 0) by {
        assert(once.staked_amount as nat * 0 == 0);
    }
}

} // verus!
