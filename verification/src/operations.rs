//! The state transitions of the ledger: creating a pool, staking,
//! withdrawing with and without a fee, claiming and funding rewards.
//!
//! Every operation is all-or-nothing. It first settles the acting position
//! against the accumulator, then checks that the paying account can cover
//! what has to be moved, then updates the records. When it is refused, the
//! records are exactly as they were.

use vstd::prelude::*;
use crate::address::Address;
use crate::error::ErrorCode;
use crate::events::{ClaimEvent, InstantUnstakeEvent, RewardDepositEvent, StakeEvent, UnstakeEvent};
use crate::rewards::{settle, update_rewards};
use crate::state::{StakingPool, UserStake, MAX_FEE_BPS, SCALE};

verus! {

/// Fee withheld when `amount` is withdrawn instantly at `fee_bps` basis
/// points: `floor(amount * fee_bps / 10000)`.
pub open spec fn fee_amount(amount: u64, fee_bps: u16) -> nat {
    (amount as nat * fee_bps as nat) / 10_000
}

/// Advance of the accumulator when `amount` is deposited for `total_staked`
/// locked units: `floor(amount * SCALE / total_staked)`.
pub open spec fn reward_increment(amount: u64, total_staked: u64) -> nat
    recommends
        total_staked > 0,
{
    (amount as nat * SCALE as nat) / (total_staked as nat)
}

/// The pool that [`initialize`] creates, or why it does not.
pub open spec fn initialize_outcome(
    authority: Address,
    stake_mint: Address,
    stake_vault: Address,
    reward_vault: Address,
    reward_duration: i64,
    min_stake_amount: u64,
    instant_unstake_fee: u16,
    bump: u8,
    now: i64,
) -> Result<StakingPool, ErrorCode> {
    if instant_unstake_fee > MAX_FEE_BPS {
        Err(ErrorCode::InvalidConfiguration)
    } else {
        Ok(
            StakingPool {
                authority,
                stake_mint,
                stake_vault,
                reward_vault,
                total_staked: 0,
                total_stakers: 0,
                reward_duration,
                last_reward_time: now,
                reward_per_token_stored: 0,
                min_stake_amount,
                instant_unstake_fee,
                bump,
            },
        )
    }
}

/// What [`stake`] does to the pool and the position, and what it reports.
pub open spec fn stake_outcome(
    pool: StakingPool,
    user_stake: UserStake,
    user: Address,
    pool_key: Address,
    amount: u64,
    available: u64,
    now: i64,
) -> Result<(StakingPool, UserStake, StakeEvent), ErrorCode> {
    if amount < pool.min_stake_amount {
        Err(ErrorCode::BelowMinimumStake)
    } else {
        match settle(pool, user_stake) {
            Err(e) => Err(e),
            Ok(settled) => {
                let joins = settled.staked_amount == 0;
                if available < amount {
                    Err(ErrorCode::InsufficientFunds)
                } else if settled.staked_amount + amount > u64::MAX || pool.total_staked + amount
                    > u64::MAX || (joins && pool.total_stakers == u64::MAX) {
                    Err(ErrorCode::ArithmeticOverflow)
                } else {
                    let staked = (settled.staked_amount + amount) as u64;
                    Ok(
                        (
                            StakingPool {
                                total_staked: (pool.total_staked + amount) as u64,
                                total_stakers: if joins {
                                    (pool.total_stakers + 1) as u64
                                } else {
                                    pool.total_stakers
                                },
                                ..pool
                            },
                            UserStake {
                                owner: if joins {
                                    user
                                } else {
                                    settled.owner
                                },
                                pool: if joins {
                                    pool_key
                                } else {
                                    settled.pool
                                },
                                stake_time: if joins {
                                    now
                                } else {
                                    settled.stake_time
                                },
                                staked_amount: staked,
                                ..settled
                            },
                            StakeEvent { user, amount, total_staked: staked, timestamp: now },
                        ),
                    )
                }
            },
        }
    }
}

/// What [`unstake`] does to the pool and the position, and what it reports.
pub open spec fn unstake_outcome(
    pool: StakingPool,
    user_stake: UserStake,
    user: Address,
    amount: u64,
    available: u64,
    now: i64,
) -> Result<(StakingPool, UserStake, UnstakeEvent), ErrorCode> {
    if amount == 0 || user_stake.staked_amount < amount {
        Err(ErrorCode::InsufficientStake)
    } else {
        match settle(pool, user_stake) {
            Err(e) => Err(e),
            Ok(settled) => {
                let leaves = settled.staked_amount == amount;
                if available < amount {
                    Err(ErrorCode::InsufficientFunds)
                } else if pool.total_staked < amount || (leaves && pool.total_stakers == 0) {
                    Err(ErrorCode::ArithmeticOverflow)
                } else {
                    let remaining = (settled.staked_amount - amount) as u64;
                    Ok(
                        (
                            StakingPool {
                                total_staked: (pool.total_staked - amount) as u64,
                                total_stakers: if leaves {
                                    (pool.total_stakers - 1) as u64
                                } else {
                                    pool.total_stakers
                                },
                                ..pool
                            },
                            UserStake { staked_amount: remaining, ..settled },
                            UnstakeEvent { user, amount, remaining, timestamp: now },
                        ),
                    )
                }
            },
        }
    }
}

/// What [`instant_unstake`] does to the pool and the position, and what it
/// reports.
///
/// The position gives up the full `amount`; the pool's total only goes down
/// by what is paid out, so the withheld fee stays counted in `total_staked`.
pub open spec fn instant_unstake_outcome(
    pool: StakingPool,
    user_stake: UserStake,
    user: Address,
    amount: u64,
    available: u64,
    now: i64,
) -> Result<(StakingPool, UserStake, InstantUnstakeEvent), ErrorCode> {
    if amount == 0 || user_stake.staked_amount < amount {
        Err(ErrorCode::InsufficientStake)
    } else {
        match settle(pool, user_stake) {
            Err(e) => Err(e),
            Ok(settled) => {
                let fee = fee_amount(amount, pool.instant_unstake_fee);
                let received = amount - fee;
                let leaves = settled.staked_amount == amount;
                if fee > amount {
                    Err(ErrorCode::ArithmeticOverflow)
                } else if available < received {
                    Err(ErrorCode::InsufficientFunds)
                } else if pool.total_staked < received || (leaves && pool.total_stakers == 0) {
                    Err(ErrorCode::ArithmeticOverflow)
                } else {
                    Ok(
                        (
                            StakingPool {
                                total_staked: (pool.total_staked - received) as u64,
                                total_stakers: if leaves {
                                    (pool.total_stakers - 1) as u64
                                } else {
                                    pool.total_stakers
                                },
                                ..pool
                            },
                            UserStake {
                                staked_amount: (settled.staked_amount - amount) as u64,
                                ..settled
                            },
                            InstantUnstakeEvent {
                                user,
                                amount,
                                fee: fee as u64,
                                received: received as u64,
                                timestamp: now,
                            },
                        ),
                    )
                }
            },
        }
    }
}

/// What [`claim_rewards`] does to the position, and what it reports.
pub open spec fn claim_outcome(
    pool: StakingPool,
    user_stake: UserStake,
    user: Address,
    available: u64,
    now: i64,
) -> Result<(UserStake, ClaimEvent), ErrorCode> {
    match settle(pool, user_stake) {
        Err(e) => Err(e),
        Ok(settled) => {
            let rewards = settled.pending_rewards;
            if rewards == 0 {
                Err(ErrorCode::NoRewardsToClaim)
            } else if available < rewards {
                Err(ErrorCode::InsufficientFunds)
            } else if settled.total_rewards_claimed + rewards > u64::MAX {
                Err(ErrorCode::ArithmeticOverflow)
            } else {
                Ok(
                    (
                        UserStake {
                            pending_rewards: 0,
                            total_rewards_claimed: (settled.total_rewards_claimed + rewards) as u64,
                            ..settled
                        },
                        ClaimEvent { user, amount: rewards, timestamp: now },
                    ),
                )
            }
        },
    }
}

/// What [`deposit_rewards`] does to the pool, and what it reports.
pub open spec fn deposit_outcome(
    pool: StakingPool,
    authority: Address,
    amount: u64,
    available: u64,
    now: i64,
) -> Result<(StakingPool, RewardDepositEvent), ErrorCode> {
    let stored = if pool.total_staked > 0 {
        pool.reward_per_token_stored + reward_increment(amount, pool.total_staked)
    } else {
        pool.reward_per_token_stored as int
    };
    if authority != pool.authority {
        Err(ErrorCode::Unauthorized)
    } else if available < amount {
        Err(ErrorCode::InsufficientFunds)
    } else if stored > u128::MAX {
        Err(ErrorCode::ArithmeticOverflow)
    } else {
        Ok(
            (
                StakingPool {
                    reward_per_token_stored: stored as u128,
                    last_reward_time: now,
                    ..pool
                },
                RewardDepositEvent { depositor: authority, amount, timestamp: now },
            ),
        )
    }
}

/// Creates a pool with zeroed counters and an accumulator of zero, last
/// funded `now`. A fee above 100% is refused as `InvalidConfiguration`.
pub fn initialize(
    authority: Address,
    stake_mint: Address,
    stake_vault: Address,
    reward_vault: Address,
    reward_duration: i64,
    min_stake_amount: u64,
    instant_unstake_fee: u16,
    bump: u8,
    now: i64,
) -> (r: Result<StakingPool, ErrorCode>)
    ensures
        r == initialize_outcome(
            authority,
            stake_mint,
            stake_vault,
            reward_vault,
            reward_duration,
            min_stake_amount,
            instant_unstake_fee,
            bump,
            now,
        ),
        r is Err <==> instant_unstake_fee > MAX_FEE_BPS,
        r matches Ok(pool) ==> pool.wf(),
{
    if instant_unstake_fee > MAX_FEE_BPS {
        return Err(ErrorCode::InvalidConfiguration);
    }
    Ok(
        StakingPool {
            authority,
            stake_mint,
            stake_vault,
            reward_vault,
            total_staked: 0,
            total_stakers: 0,
            reward_duration,
            last_reward_time: now,
            reward_per_token_stored: 0,
            min_stake_amount,
            instant_unstake_fee,
            bump,
        },
    )
}

/// Locks `amount` tokens of `user` into the pool.
///
/// `available` is what the user's token account holds; on success the
/// caller moves `amount` from it into stake custody. A position that was
/// empty is bound to `user` and `pool_key`, gets `now` as its stake time and
/// is counted as a staker.
pub fn stake(
    pool: &mut StakingPool,
    user_stake: &mut UserStake,
    user: Address,
    pool_key: Address,
    amount: u64,
    available: u64,
    now: i64,
) -> (r: Result<StakeEvent, ErrorCode>)
    ensures
        match stake_outcome(*old(pool), *old(user_stake), user, pool_key, amount, available, now) {
            Ok((p, u, event)) => r == Ok::<StakeEvent, ErrorCode>(event) && *final(pool) == p
                && *final(user_stake) == u,
            Err(e) => r == Err::<StakeEvent, ErrorCode>(e) && *final(pool) == *old(pool)
                && *final(user_stake) == *old(user_stake),
        },
        r is Ok ==> final(pool).total_staked - old(pool).total_staked == amount
            && final(user_stake).staked_amount - old(user_stake).staked_amount == amount,
        final(pool).reward_per_token_stored == old(pool).reward_per_token_stored,
        r is Ok ==> final(user_stake).in_step_with(final(pool)),
{
    if amount < pool.min_stake_amount {
        return Err(ErrorCode::BelowMinimumStake);
    }
    let mut settled: UserStake = *user_stake;
    match update_rewards(pool, &mut settled) {
        Err(e) => {
            return Err(e);
        },
        Ok(()) => {},
    }
    if available < amount {
        return Err(ErrorCode::InsufficientFunds);
    }
    let joins = settled.staked_amount == 0;
    let stakers: u64 = if joins {
        match pool.total_stakers.checked_add(1) {
            Some(n) => n,
            None => {
                return Err(ErrorCode::ArithmeticOverflow);
            },
        }
    } else {
        pool.total_stakers
    };
    let staked: u64 = match settled.staked_amount.checked_add(amount) {
        Some(n) => n,
        None => {
            return Err(ErrorCode::ArithmeticOverflow);
        },
    };
    let total: u64 = match pool.total_staked.checked_add(amount) {
        Some(n) => n,
        None => {
            return Err(ErrorCode::ArithmeticOverflow);
        },
    };
    if joins {
        settled.owner = user;
        settled.pool = pool_key;
        settled.stake_time = now;
    }
    settled.staked_amount = staked;
    *user_stake = settled;
    pool.total_stakers = stakers;
    pool.total_staked = total;
    Ok(StakeEvent { user, amount, total_staked: staked, timestamp: now })
}

/// Withdraws `amount` tokens at full value.
///
/// `available` is what stake custody holds; on success the caller moves
/// `amount` from it to the user. A position that becomes empty is no longer
/// counted as a staker.
pub fn unstake(
    pool: &mut StakingPool,
    user_stake: &mut UserStake,
    user: Address,
    amount: u64,
    available: u64,
    now: i64,
) -> (r: Result<UnstakeEvent, ErrorCode>)
    ensures
        match unstake_outcome(*old(pool), *old(user_stake), user, amount, available, now) {
            Ok((p, u, event)) => r == Ok::<UnstakeEvent, ErrorCode>(event) && *final(pool) == p
                && *final(user_stake) == u,
            Err(e) => r == Err::<UnstakeEvent, ErrorCode>(e) && *final(pool) == *old(pool)
                && *final(user_stake) == *old(user_stake),
        },
        r is Ok ==> old(pool).total_staked - final(pool).total_staked == amount
            && old(user_stake).staked_amount - final(user_stake).staked_amount == amount,
        final(pool).reward_per_token_stored == old(pool).reward_per_token_stored,
        r is Ok ==> final(user_stake).in_step_with(final(pool)),
{
    if amount == 0 || user_stake.staked_amount < amount {
        return Err(ErrorCode::InsufficientStake);
    }
    let mut settled: UserStake = *user_stake;
    match update_rewards(pool, &mut settled) {
        Err(e) => {
            return Err(e);
        },
        Ok(()) => {},
    }
    if available < amount {
        return Err(ErrorCode::InsufficientFunds);
    }
    let remaining: u64 = settled.staked_amount - amount;
    let total: u64 = match pool.total_staked.checked_sub(amount) {
        Some(n) => n,
        None => {
            return Err(ErrorCode::ArithmeticOverflow);
        },
    };
    let stakers: u64 = if remaining == 0 {
        match pool.total_stakers.checked_sub(1) {
            Some(n) => n,
            None => {
                return Err(ErrorCode::ArithmeticOverflow);
            },
        }
    } else {
        pool.total_stakers
    };
    settled.staked_amount = remaining;
    *user_stake = settled;
    pool.total_staked = total;
    pool.total_stakers = stakers;
    Ok(UnstakeEvent { user, amount, remaining, timestamp: now })
}

/// Withdraws `amount` tokens at once, against the pool's fee.
///
/// The fee is `floor(amount * fee / 10000)` and the user receives the rest.
/// `available` is what stake custody holds; on success the caller moves
/// `received` from it to the user and leaves the fee where it is. The
/// position is reduced by the full `amount`, the pool's total by `received`
/// only.
pub fn instant_unstake(
    pool: &mut StakingPool,
    user_stake: &mut UserStake,
    user: Address,
    amount: u64,
    available: u64,
    now: i64,
) -> (r: Result<InstantUnstakeEvent, ErrorCode>)
    ensures
        match instant_unstake_outcome(*old(pool), *old(user_stake), user, amount, available, now) {
            Ok((p, u, event)) => r == Ok::<InstantUnstakeEvent, ErrorCode>(event) && *final(pool)
                == p && *final(user_stake) == u,
            Err(e) => r == Err::<InstantUnstakeEvent, ErrorCode>(e) && *final(pool) == *old(pool)
                && *final(user_stake) == *old(user_stake),
        },
        r matches Ok(event) ==> event.fee == fee_amount(amount, old(pool).instant_unstake_fee)
            && event.received == amount - fee_amount(amount, old(pool).instant_unstake_fee)
            && event.received <= amount
            && old(user_stake).staked_amount - final(user_stake).staked_amount == amount
            && old(pool).total_staked - final(pool).total_staked == event.received,
        final(pool).reward_per_token_stored == old(pool).reward_per_token_stored,
        r is Ok ==> final(user_stake).in_step_with(final(pool)),
{
    if amount == 0 || user_stake.staked_amount < amount {
        return Err(ErrorCode::InsufficientStake);
    }
    let mut settled: UserStake = *user_stake;
    match update_rewards(pool, &mut settled) {
        Err(e) => {
            return Err(e);
        },
        Ok(()) => {},
    }
    let bps: u16 = pool.instant_unstake_fee;
    assert(amount as u128 * bps as u128 <= 0xFFFF_FFFF_FFFF_FFFF * 0xFFFF) by (nonlinear_arith)
        requires
            amount <= 0xFFFF_FFFF_FFFF_FFFF,
            bps <= 0xFFFF,
    ;
    let fee_wide: u128 = amount as u128 * bps as u128 / 10_000;
    if fee_wide > amount as u128 {
        return Err(ErrorCode::ArithmeticOverflow);
    }
    let fee: u64 = fee_wide as u64;
    let received: u64 = amount - fee;
    if available < received {
        return Err(ErrorCode::InsufficientFunds);
    }
    let remaining: u64 = settled.staked_amount - amount;
    let total: u64 = match pool.total_staked.checked_sub(received) {
        Some(n) => n,
        None => {
            return Err(ErrorCode::ArithmeticOverflow);
        },
    };
    let stakers: u64 = if remaining == 0 {
        match pool.total_stakers.checked_sub(1) {
            Some(n) => n,
            None => {
                return Err(ErrorCode::ArithmeticOverflow);
            },
        }
    } else {
        pool.total_stakers
    };
    settled.staked_amount = remaining;
    *user_stake = settled;
    pool.total_staked = total;
    pool.total_stakers = stakers;
    Ok(InstantUnstakeEvent { user, amount, fee, received, timestamp: now })
}

/// Pays out everything the position has pending.
///
/// `available` is what reward custody holds; on success the caller moves
/// the event's `amount` from it to the user.
pub fn claim_rewards(
    pool: &StakingPool,
    user_stake: &mut UserStake,
    user: Address,
    available: u64,
    now: i64,
) -> (r: Result<ClaimEvent, ErrorCode>)
    ensures
        match claim_outcome(*pool, *old(user_stake), user, available, now) {
            Ok((u, event)) => r == Ok::<ClaimEvent, ErrorCode>(event) && *final(user_stake) == u,
            Err(e) => r == Err::<ClaimEvent, ErrorCode>(e) && *final(user_stake) == *old(
                user_stake,
            ),
        },
        r matches Ok(event) ==> event.amount > 0 && final(user_stake).pending_rewards == 0
            && final(user_stake).total_rewards_claimed == old(user_stake).total_rewards_claimed
            + event.amount && final(user_stake).staked_amount == old(user_stake).staked_amount,
        r is Ok ==> final(user_stake).in_step_with(pool),
{
    let mut settled: UserStake = *user_stake;
    match update_rewards(pool, &mut settled) {
        Err(e) => {
            return Err(e);
        },
        Ok(()) => {},
    }
    let rewards: u64 = settled.pending_rewards;
    if rewards == 0 {
        return Err(ErrorCode::NoRewardsToClaim);
    }
    if available < rewards {
        return Err(ErrorCode::InsufficientFunds);
    }
    let claimed: u64 = match settled.total_rewards_claimed.checked_add(rewards) {
        Some(n) => n,
        None => {
            return Err(ErrorCode::ArithmeticOverflow);
        },
    };
    settled.pending_rewards = 0;
    settled.total_rewards_claimed = claimed;
    *user_stake = settled;
    Ok(ClaimEvent { user, amount: rewards, timestamp: now })
}

/// Funds rewards for everyone who is staked right now.
///
/// Only the pool's authority may deposit. `available` is what the authority
/// holds; on success the caller moves `amount` from it into reward custody.
/// With nothing staked the deposit is accepted and the accumulator stays
/// where it is; otherwise it advances by `floor(amount * SCALE /
/// total_staked)`.
pub fn deposit_rewards(
    pool: &mut StakingPool,
    authority: Address,
    amount: u64,
    available: u64,
    now: i64,
) -> (r: Result<RewardDepositEvent, ErrorCode>)
    ensures
        match deposit_outcome(*old(pool), authority, amount, available, now) {
            Ok((p, event)) => r == Ok::<RewardDepositEvent, ErrorCode>(event) && *final(pool) == p,
            Err(e) => r == Err::<RewardDepositEvent, ErrorCode>(e) && *final(pool) == *old(pool),
        },
        final(pool).reward_per_token_stored >= old(pool).reward_per_token_stored,
        old(pool).total_staked == 0 ==> final(pool).reward_per_token_stored == old(
            pool,
        ).reward_per_token_stored,
        final(pool).total_staked == old(pool).total_staked,
        final(pool).total_stakers == old(pool).total_stakers,
{
    if !authority.same(&pool.authority) {
        return Err(ErrorCode::Unauthorized);
    }
    if available < amount {
        return Err(ErrorCode::InsufficientFunds);
    }
    if pool.total_staked > 0 {
        let increment: u128 = amount as u128 * SCALE / pool.total_staked as u128;
        match pool.reward_per_token_stored.checked_add(increment) {
            Some(stored) => {
                pool.reward_per_token_stored = stored;
            },
            None => {
                return Err(ErrorCode::ArithmeticOverflow);
            },
        }
    }
    pool.last_reward_time = now;
    Ok(RewardDepositEvent { depositor: authority, amount, timestamp: now })
}

} // verus!
