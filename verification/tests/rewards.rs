use orange_staking::{update_rewards, Address, ErrorCode, StakingPool, UserStake, SCALE};

fn pool_at(reward_per_token_stored: u128) -> StakingPool {
    StakingPool {
        authority: Address::new([1; 32]),
        stake_mint: Address::new([2; 32]),
        stake_vault: Address::new([3; 32]),
        reward_vault: Address::new([4; 32]),
        total_staked: 0,
        total_stakers: 0,
        reward_duration: 0,
        last_reward_time: 0,
        reward_per_token_stored,
        min_stake_amount: 0,
        instant_unstake_fee: 0,
        bump: 0,
    }
}

fn holder(staked_amount: u64, reward_per_token_paid: u128, pending_rewards: u64) -> UserStake {
    UserStake {
        owner: Address::new([7; 32]),
        pool: Address::new([8; 32]),
        staked_amount,
        stake_time: 55,
        reward_per_token_paid,
        pending_rewards,
        total_rewards_claimed: 3,
    }
}

#[test]
fn scale_is_ten_to_the_eighteenth() {
    assert_eq!(SCALE, 10u128.pow(18));
}

#[test]
fn settling_credits_the_floored_share() {
    let pool = pool_at(7 * SCALE / 2);
    let mut user = holder(3, SCALE, 10);
    update_rewards(&pool, &mut user).unwrap();
    // 3 units over an advance of 2.5 per unit earn 7.5, floored to 7.
    assert_eq!(user.pending_rewards, 17);
    assert_eq!(user.reward_per_token_paid, 7 * SCALE / 2);
    assert_eq!(user.staked_amount, 3);
    assert_eq!(user.stake_time, 55);
    assert_eq!(user.total_rewards_claimed, 3);
}

#[test]
fn settling_just_below_a_whole_unit_earns_nothing() {
    let pool = pool_at(SCALE - 1);
    let mut user = holder(1, 0, 0);
    update_rewards(&pool, &mut user).unwrap();
    assert_eq!(user.pending_rewards, 0);
    assert_eq!(user.reward_per_token_paid, SCALE - 1);
}

#[test]
fn settling_an_empty_position_only_moves_the_checkpoint() {
    let pool = pool_at(5 * SCALE);
    let mut user = holder(0, SCALE, 10);
    update_rewards(&pool, &mut user).unwrap();
    assert_eq!(user, holder(0, 5 * SCALE, 10));
}

#[test]
fn settling_an_empty_position_ignores_a_checkpoint_ahead_of_the_pool() {
    let pool = pool_at(SCALE);
    let mut user = holder(0, 5 * SCALE, 10);
    update_rewards(&pool, &mut user).unwrap();
    assert_eq!(user, holder(0, SCALE, 10));
}

#[test]
fn settling_twice_changes_nothing_the_second_time() {
    let pool = pool_at(123_456_789 * SCALE / 1_000);
    let mut user = holder(987_654, 17, 4);
    update_rewards(&pool, &mut user).unwrap();
    let once = user;
    assert!(once.pending_rewards > 4);
    update_rewards(&pool, &mut user).unwrap();
    assert_eq!(user, once);
    assert_eq!(user.pending_rewards, once.pending_rewards);
}

#[test]
fn settling_with_a_checkpoint_ahead_of_the_pool_is_refused() {
    let pool = pool_at(SCALE);
    let mut user = holder(1, SCALE + 1, 10);
    assert_eq!(update_rewards(&pool, &mut user), Err(ErrorCode::ArithmeticOverflow));
    assert_eq!(user, holder(1, SCALE + 1, 10));
}

#[test]
fn settling_that_overflows_pending_rewards_is_refused() {
    let pool = pool_at(2 * SCALE);
    let mut user = holder(5, 0, u64::MAX - 9);
    assert_eq!(update_rewards(&pool, &mut user), Err(ErrorCode::ArithmeticOverflow));
    assert_eq!(user, holder(5, 0, u64::MAX - 9));

    let mut user = holder(5, 0, u64::MAX - 10);
    update_rewards(&pool, &mut user).unwrap();
    assert_eq!(user.pending_rewards, u64::MAX);
}

#[test]
fn settling_whose_product_leaves_128_bits_is_refused() {
    let pool = pool_at(u128::MAX);
    let mut user = holder(2, 0, 0);
    assert_eq!(update_rewards(&pool, &mut user), Err(ErrorCode::ArithmeticOverflow));
    assert_eq!(user, holder(2, 0, 0));
}

#[test]
fn settling_whose_share_leaves_64_bits_is_refused() {
    // The product fits 128 bits, the share does not fit 64.
    let pool = pool_at((u64::MAX as u128 + 1) * SCALE);
    let mut user = holder(1, 0, 0);
    assert_eq!(update_rewards(&pool, &mut user), Err(ErrorCode::ArithmeticOverflow));
    let pool = pool_at(u64::MAX as u128 * SCALE);
    update_rewards(&pool, &mut user).unwrap();
    assert_eq!(user.pending_rewards, u64::MAX);
}

#[test]
fn error_messages() {
    assert_eq!(ErrorCode::BelowMinimumStake.message(), "Below minimum stake");
    assert_eq!(ErrorCode::InsufficientStake.message(), "Insufficient stake");
    assert_eq!(ErrorCode::NoRewardsToClaim.message(), "No rewards to claim");
    assert_eq!(ErrorCode::Unauthorized.message(), "Unauthorized");
    assert_eq!(ErrorCode::InvalidConfiguration.message(), "Invalid configuration");
    assert_eq!(ErrorCode::InsufficientFunds.message(), "Insufficient funds");
    assert_eq!(ErrorCode::ArithmeticOverflow.message(), "Arithmetic overflow");
}

#[test]
fn addresses_are_the_same_when_all_bytes_agree() {
    let a = Address::new([5; 32]);
    let b = Address::new([5; 32]);
    assert!(a.same(&b));
    assert_eq!(a, b);
    for i in 0..32 {
        let mut bytes = [5u8; 32];
        bytes[i] = 6;
        let c = Address::new(bytes);
        assert!(!a.same(&c));
        assert!(!c.same(&a));
        assert_eq!(c.bytes[i], 6);
    }
}

#[test]
fn an_empty_position_holds_nothing() {
    let user = UserStake::empty(Address::new([7; 32]), Address::new([8; 32]));
    assert_eq!(user.owner, Address::new([7; 32]));
    assert_eq!(user.pool, Address::new([8; 32]));
    assert_eq!(user.staked_amount, 0);
    assert_eq!(user.stake_time, 0);
    assert_eq!(user.reward_per_token_paid, 0);
    assert_eq!(user.pending_rewards, 0);
    assert_eq!(user.total_rewards_claimed, 0);
}
