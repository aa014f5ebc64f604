//! The ways an operation can be refused.

use vstd::prelude::*;

verus! {

/// Why an operation was refused. A refused operation changes nothing.
#[derive(Clone, Copy, Debug, PartialEq, Eq, Structural)]
pub enum ErrorCode {
    /// A stake smaller than the pool's minimum.
    BelowMinimumStake,
    /// A withdrawal of nothing, or of more than the position holds.
    InsufficientStake,
    /// A claim on a position that has nothing pending.
    NoRewardsToClaim,
    /// A reward deposit by anyone but the pool's authority.
    Unauthorized,
    /// A pool configured with a fee above 100%.
    InvalidConfiguration,
    /// The paying account holds less than has to be moved.
    InsufficientFunds,
    /// A counter would leave its range.
    ArithmeticOverflow,
}

impl ErrorCode {
    /// The text of [`ErrorCode::message`].
    pub open spec fn message_text(self) -> Seq<char> {
        match self {
            ErrorCode::BelowMinimumStake => "Below minimum stake"@,
            ErrorCode::InsufficientStake => "Insufficient stake"@,
            ErrorCode::NoRewardsToClaim => "No rewards to claim"@,
            ErrorCode::Unauthorized => "Unauthorized"@,
            ErrorCode::InvalidConfiguration => "Invalid configuration"@,
            ErrorCode::InsufficientFunds => "Insufficient funds"@,
            ErrorCode::ArithmeticOverflow => "Arithmetic overflow"@,
        }
    }

    /// A short description for people.
    pub fn message(&self) -> (text: String)
        ensures
            text@ == self.message_text(),
    {
        match self {
            ErrorCode::BelowMinimumStake => "Below minimum stake".to_owned(),
            ErrorCode::InsufficientStake => "Insufficient stake".to_owned(),
            ErrorCode::NoRewardsToClaim => "No rewards to claim".to_owned(),
            ErrorCode::Unauthorized => "Unauthorized".to_owned(),
            ErrorCode::InvalidConfiguration => "Invalid configuration".to_owned(),
            ErrorCode::InsufficientFunds => "Insufficient funds".to_owned(),
            ErrorCode::ArithmeticOverflow => "Arithmetic overflow".to_owned(),
        }
    }
}

} // verus!
