//! How one position's record moves over time.

use vstd::prelude::*;
use crate::ledger::{lemma_run_prefix, Ledger, Operation};

verus! {

/// One request never lowers a position's lifetime total of claimed rewards,
/// only a claim lowers pending rewards, and only a stake into an empty
/// position moves the stake time.
pub proof fn law_step_position(ledger: Ledger, op: Operation, i: int)
    requires
        ledger.has(i),
    ensures
        ledger.step(op).has(i),
        ledger.step(op).positions[i].total_rewards_claimed
            >= ledger.positions[i].total_rewards_claimed,
        !(op is Claim) ==> ledger.step(op).positions[i].pending_rewards
            >= ledger.positions[i].pending_rewards,
        !(op is Stake) || ledger.positions[i].staked_amount > 0 ==> ledger.step(
            op,
        ).positions[i].stake_time == ledger.positions[i].stake_time,
{
}

/// Claimed totals never decrease: along any sequence of requests a later
/// state's lifetime total of a position is at least an earlier state's.
pub proof fn law_claimed_monotonic(ledger: Ledger, ops: Seq<Operation>, i: int, j: int, p: int)
    requires
        0 <= i <= j <= ops.len(),
        ledger.has(p),
    ensures
        ledger.run(ops.take(i)).has(p),
        ledger.run(ops.take(j)).has(p),
        ledger.run(ops.take(i)).positions[p].total_rewards_claimed <= ledger.run(
            ops.take(j),
        ).positions[p].total_rewards_claimed,
    decreases j,
{
    if j > 0 {
        lemma_run_prefix(ledger, ops, j);
        if i < j {
            law_claimed_monotonic(ledger, ops, i, j - 1, p);
        } else {
            law_claimed_monotonic(ledger, ops, j - 1, j - 1, p);
        }
        law_step_position(ledger.run(ops.take(j - 1)), ops[j - 1], p);
    } else {
        assert(ops.take(0) =~= Seq::<Operation>::empty());
    }
}

} // verus!
