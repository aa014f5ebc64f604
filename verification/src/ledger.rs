//! A model of the whole ledger: one pool with all of its positions, and
//! what sequences of requests do to it.
//!
//! The model exists for the laws in [`crate::laws`]. Nothing here runs.

use vstd::prelude::*;
use crate::address::Address;
use crate::operations::{
    claim_outcome, deposit_outcome, fee_amount, instant_unstake_outcome, stake_outcome,
    unstake_outcome,
};
use crate::state::{StakingPool, UserStake};

verus! {

/// A pool and every position in it.
pub struct Ledger {
    pub pool: StakingPool,
    pub positions: Seq<UserStake>,
}

/// A request to the ledger. `position` says which position acts.
pub enum Operation {
    Stake {
        position: int,
        user: Address,
        pool_key: Address,
        amount: u64,
        available: u64,
        now: i64,
    },
    Unstake { position: int, user: Address, amount: u64, available: u64, now: i64 },
    InstantUnstake { position: int, user: Address, amount: u64, available: u64, now: i64 },
    Claim { position: int, user: Address, available: u64, now: i64 },
    Deposit { authority: Address, amount: u64, available: u64, now: i64 },
}

impl Operation {
    /// The position that acts, if the request names one.
    pub open spec fn position(self) -> Option<int> {
        match self {
            Operation::Stake { position, .. } => Some(position),
            Operation::Unstake { position, .. } => Some(position),
            Operation::InstantUnstake { position, .. } => Some(position),
            Operation::Claim { position, .. } => Some(position),
            Operation::Deposit { .. } => None,
        }
    }
}

/// Sum of the locked balances of `positions`.
pub open spec fn sum_staked(positions: Seq<UserStake>) -> int
    decreases positions.len(),
{
    if positions.len() == 0 {
        0
    } else {
        sum_staked(positions.drop_last()) + positions.last().staked_amount
    }
}

/// One for a position that holds something, zero for an empty one.
pub open spec fn staker(user_stake: UserStake) -> int {
    if user_stake.staked_amount > 0 {
        1
    } else {
        0
    }
}

/// Number of `positions` with a non-zero locked balance.
pub open spec fn count_stakers(positions: Seq<UserStake>) -> int
    decreases positions.len(),
{
    if positions.len() == 0 {
        0
    } else {
        count_stakers(positions.drop_last()) + staker(positions.last())
    }
}

impl Ledger {
    /// The pool's total is the sum of its positions' balances.
    pub open spec fn conserved(self) -> bool {
        self.pool.total_staked == sum_staked(self.positions)
    }

    /// What the pool's total counts beyond its positions' balances.
    pub open spec fn surplus(self) -> int {
        self.pool.total_staked - sum_staked(self.positions)
    }

    /// The pool counts exactly the positions that hold something.
    pub open spec fn stakers_counted(self) -> bool {
        self.pool.total_stakers == count_stakers(self.positions)
    }

    /// No position's checkpoint lies ahead of the pool's accumulator.
    pub open spec fn in_step(self) -> bool {
        forall|i: int|
            0 <= i < self.positions.len() ==> (#[trigger] self.positions[i]).in_step_with(
                &self.pool,
            )
    }

    /// A pool that was just created, with positions that never held
    /// anything.
    pub open spec fn fresh(self) -> bool {
        &&& self.pool.total_staked == 0
        &&& self.pool.reward_per_token_stored == 0
        &&& forall|i: int|
            0 <= i < self.positions.len() ==> {
                &&& (#[trigger] self.positions[i]).staked_amount == 0
                &&& self.positions[i].pending_rewards == 0
                &&& self.positions[i].total_rewards_claimed == 0
                &&& self.positions[i].reward_per_token_paid == 0
            }
    }

    /// Whether `position` names one of the ledger's positions.
    pub open spec fn has(self, position: int) -> bool {
        0 <= position < self.positions.len()
    }

    /// The ledger with a new pool state and one position replaced.
    pub open spec fn with(self, pool: StakingPool, position: int, user_stake: UserStake) -> Ledger {
        Ledger { pool, positions: self.positions.update(position, user_stake) }
    }

    /// The ledger after one request. A request that is refused, or that
    /// names no position of the ledger, leaves it as it is.
    pub open spec fn step(self, op: Operation) -> Ledger {
        if !self.accepts(op) {
            self
        } else {
            match op {
                Operation::Stake { position, user, pool_key, amount, available, now } => {
                    let (pool, user_stake, _) = stake_outcome(
                        self.pool,
                        self.positions[position],
                        user,
                        pool_key,
                        amount,
                        available,
                        now,
                    )->Ok_0;
                    self.with(pool, position, user_stake)
                },
                Operation::Unstake { position, user, amount, available, now } => {
                    let (pool, user_stake, _) = unstake_outcome(
                        self.pool,
                        self.positions[position],
                        user,
                        amount,
                        available,
                        now,
                    )->Ok_0;
                    self.with(pool, position, user_stake)
                },
                Operation::InstantUnstake { position, user, amount, available, now } => {
                    let (pool, user_stake, _) = instant_unstake_outcome(
                        self.pool,
                        self.positions[position],
                        user,
                        amount,
                        available,
                        now,
                    )->Ok_0;
                    self.with(pool, position, user_stake)
                },
                Operation::Claim { position, user, available, now } => {
                    let (user_stake, _) = claim_outcome(
                        self.pool,
                        self.positions[position],
                        user,
                        available,
                        now,
                    )->Ok_0;
                    self.with(self.pool, position, user_stake)
                },
                Operation::Deposit { authority, amount, available, now } => {
                    let (pool, _) = deposit_outcome(
                        self.pool,
                        authority,
                        amount,
                        available,
                        now,
                    )->Ok_0;
                    Ledger { pool, positions: self.positions }
                },
            }
        }
    }

    /// Whether one request is accepted and changes the ledger's records.
    pub open spec fn accepts(self, op: Operation) -> bool {
        match op {
            Operation::Stake { position, user, pool_key, amount, available, now } => {
                self.has(position) && stake_outcome(
                    self.pool,
                    self.positions[position],
                    user,
                    pool_key,
                    amount,
                    available,
                    now,
                ) is Ok
            },
            Operation::Unstake { position, user, amount, available, now } => {
                self.has(position) && unstake_outcome(
                    self.pool,
                    self.positions[position],
                    user,
                    amount,
                    available,
                    now,
                ) is Ok
            },
            Operation::InstantUnstake { position, user, amount, available, now } => {
                self.has(position) && instant_unstake_outcome(
                    self.pool,
                    self.positions[position],
                    user,
                    amount,
                    available,
                    now,
                ) is Ok
            },
            Operation::Claim { position, user, available, now } => {
                self.has(position) && claim_outcome(
                    self.pool,
                    self.positions[position],
                    user,
                    available,
                    now,
                ) is Ok
            },
            Operation::Deposit { authority, amount, available, now } => {
                deposit_outcome(self.pool, authority, amount, available, now) is Ok
            },
        }
    }

    /// The fee that one request leaves in the pool's total: what an accepted
    /// instant withdrawal withholds, and nothing otherwise.
    pub open spec fn step_fee(self, op: Operation) -> int {
        match op {
            Operation::InstantUnstake { amount, .. } if self.accepts(op) => fee_amount(
                amount,
                self.pool.instant_unstake_fee,
            ) as int,
            _ => 0,
        }
    }

    /// The reward that one request adds to reward custody: the amount of an
    /// accepted deposit, and nothing otherwise.
    pub open spec fn step_deposit(self, op: Operation) -> int {
        match op {
            Operation::Deposit { amount, .. } if self.accepts(op) => amount as int,
            _ => 0,
        }
    }

    /// The ledger after a sequence of requests, first to last.
    pub open spec fn run(self, ops: Seq<Operation>) -> Ledger
        decreases ops.len(),
    {
        if ops.len() == 0 {
            self
        } else {
            self.run(ops.drop_last()).step(ops.last())
        }
    }

    /// All fees withheld over a sequence of requests.
    pub open spec fn fees_withheld(self, ops: Seq<Operation>) -> int
        decreases ops.len(),
    {
        if ops.len() == 0 {
            0
        } else {
            self.fees_withheld(ops.drop_last()) + self.run(ops.drop_last()).step_fee(ops.last())
        }
    }

    /// All rewards deposited over a sequence of requests.
    pub open spec fn deposited(self, ops: Seq<Operation>) -> int
        decreases ops.len(),
    {
        if ops.len() == 0 {
            0
        } else {
            self.deposited(ops.drop_last()) + self.run(ops.drop_last()).step_deposit(ops.last())
        }
    }
}

/// The run over the first `k` requests is one step after the run over the
/// first `k - 1`, and the tallies grow by that step's share.
pub proof fn lemma_run_prefix(ledger: Ledger, ops: Seq<Operation>, k: int)
    requires
        0 < k <= ops.len(),
    ensures
        ledger.run(ops.take(k)) == ledger.run(ops.take(k - 1)).step(ops[k - 1]),
        ledger.fees_withheld(ops.take(k)) == ledger.fees_withheld(ops.take(k - 1)) + ledger.run(
            ops.take(k - 1),
        ).step_fee(ops[k - 1]),
        ledger.deposited(ops.take(k)) == ledger.deposited(ops.take(k - 1)) + ledger.run(
            ops.take(k - 1),
        ).step_deposit(ops[k - 1]),
{
    assert(ops.take(k).drop_last() =~= ops.take(k - 1));
}

/// A step replaces at most the acting position, and only when the request
/// is accepted.
pub proof fn lemma_step_shape(ledger: Ledger, op: Operation)
    ensures
        ledger.step(op).positions.len() == ledger.positions.len(),
        !ledger.accepts(op) ==> ledger.step(op) == ledger,
        ledger.accepts(op) ==> match op.position() {
            Some(position) => ledger.has(position) && ledger.step(op).positions
                == ledger.positions.update(position, ledger.step(op).positions[position]),
            None => ledger.step(op).positions == ledger.positions,
        },
{
}

} // verus!
