//! What a successful operation reports.
//!
//! Each event names the actor, the amounts involved and the time. The caller
//! moves the tokens the event speaks of and publishes it.

use vstd::prelude::*;
use crate::address::Address;

verus! {

/// Tokens were locked. `amount` moves from the user into stake custody.
#[derive(Clone, Copy, Debug, PartialEq, Eq)]
pub struct StakeEvent {
    pub user: Address,
    pub amount: u64,
    /// The user's locked balance after the operation.
    pub total_staked: u64,
    pub timestamp: i64,
}

/// Tokens were withdrawn in full. `amount` moves from stake custody to the user.
#[derive(Clone, Copy, Debug, PartialEq, Eq)]
pub struct UnstakeEvent {
    pub user: Address,
    pub amount: u64,
    /// The user's locked balance after the operation.
    pub remaining: u64,
    pub timestamp: i64,
}

/// Tokens were withdrawn against a fee. `received` moves from stake custody
/// to the user; `fee` stays in custody.
#[derive(Clone, Copy, Debug, PartialEq, Eq)]
pub struct InstantUnstakeEvent {
    pub user: Address,
    pub amount: u64,
    pub fee: u64,
    pub received: u64,
    pub timestamp: i64,
}

/// Rewards were paid out. `amount` moves from reward custody to the user.
#[derive(Clone, Copy, Debug, PartialEq, Eq)]
pub struct ClaimEvent {
    pub user: Address,
    pub amount: u64,
    pub timestamp: i64,
}

/// Rewards were funded. `amount` moves from the depositor into reward custody.
#[derive(Clone, Copy, Debug, PartialEq, Eq)]
pub struct RewardDepositEvent {
    pub depositor: Address,
    pub amount: u64,
    pub timestamp: i64,
}

} // verus!
