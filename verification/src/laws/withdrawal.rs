//! What is staked can be withdrawn: in a consistent ledger no counter
//! stands in the way.

use vstd::prelude::*;
use crate::address::Address;
use crate::laws::arithmetic::lemma_fee_within_amount;
use crate::ledger::{count_stakers, staker, sum_staked, Ledger};
use crate::operations::{fee_amount, instant_unstake_outcome, unstake_outcome};
use crate::rewards::settle;
use crate::state::UserStake;

verus! {

/// No position holds more than all positions together, nor counts for more
/// stakers.
pub proof fn lemma_position_within_totals(positions: Seq<UserStake>, i: int)
    requires
        0 <= i < positions.len(),
    ensures
        positions[i].staked_amount <= sum_staked(positions),
        staker(positions[i]) <= count_stakers(positions),
        0 <= sum_staked(positions),
        0 <= count_stakers(positions),
    decreases positions.len(),
{
    if positions.len() > 1 {
        if i < positions.len() - 1 {
            lemma_position_within_totals(positions.drop_last(), i);
        } else {
            lemma_position_within_totals(positions.drop_last(), 0);
        }
    } else {
        assert(positions.drop_last().len() == 0);
        assert(sum_staked(positions.drop_last()) == 0);
        assert(count_stakers(positions.drop_last()) == 0);
    }
}

/// Withdrawal is owed: in a ledger whose pool counts at least what its
/// positions hold and exactly the positions that hold something, a
/// withdrawal of part or all of a position's balance is accepted whenever
/// the position can be settled and custody holds the amount.
pub proof fn law_unstake_owed(
    ledger: Ledger,
    position: int,
    user: Address,
    amount: u64,
    available: u64,
    now: i64,
)
    requires
        ledger.has(position),
        ledger.surplus() >= 0,
        ledger.stakers_counted(),
        0 < amount <= ledger.positions[position].staked_amount,
        settle(ledger.pool, ledger.positions[position]) is Ok,
        amount <= available,
    ensures
        unstake_outcome(ledger.pool, ledger.positions[position], user, amount, available, now)
            is Ok,
{
    lemma_position_within_totals(ledger.positions, position);
}

/// Instant withdrawal is owed: under the same conditions, in a well-formed
/// pool, an instant withdrawal is accepted whenever custody holds what is
/// paid out.
pub proof fn law_instant_unstake_owed(
    ledger: Ledger,
    position: int,
    user: Address,
    amount: u64,
    available: u64,
    now: i64,
)
    requires
        ledger.has(position),
        ledger.pool.wf(),
        ledger.surplus() >= 0,
        ledger.stakers_counted(),
        0 < amount <= ledger.positions[position].staked_amount,
        settle(ledger.pool, ledger.positions[position]) is Ok,
        amount - fee_amount(amount, ledger.pool.instant_unstake_fee) <= available,
    ensures
        instant_unstake_outcome(
            ledger.pool,
            ledger.positions[position],
            user,
            amount,
            available,
            now,
        ) is Ok,
{
    lemma_position_within_totals(ledger.positions, position);
    lemma_fee_within_amount(amount, ledger.pool.instant_unstake_fee);
}

} // verus!
