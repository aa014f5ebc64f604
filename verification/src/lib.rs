//! Reward accounting for a single-pool token staking ledger.
//!
//! Users lock tokens into a shared pool and earn a pro-rata share of every
//! reward deposit. Rewards are distributed lazily through a pool-wide
//! reward-per-token accumulator: a deposit only advances the accumulator, and
//! each position settles against it the next time it is touched, so every
//! operation costs the same however many stakers there are.
//!
//! The crate holds the ledger's state records and its state transitions.
//! Moving tokens, reading the clock and publishing events belong to the
//! caller: each operation is handed the balance of the paying account and the
//! current time, and returns the event that describes what has to be moved.

pub mod address;
pub mod error;
pub mod events;
pub mod state;
pub mod rewards;
pub mod operations;
pub mod ledger;
pub mod laws;

pub use address::Address;
pub use error::ErrorCode;
pub use events::{ClaimEvent, InstantUnstakeEvent, RewardDepositEvent, StakeEvent, UnstakeEvent};
pub use operations::{
    claim_rewards, deposit_rewards, initialize, instant_unstake, stake, unstake,
};
pub use rewards::update_rewards;
pub use state::{StakingPool, UserStake, MAX_FEE_BPS, SCALE};
