//! The ways in which an instruction can fail.

use vstd::prelude::*;

verus! {

/// Why an instruction was rejected. A rejected instruction changes nothing.
#[derive(Clone, Copy, Debug, PartialEq, Eq, Structural)]
pub enum StakingError {
    /// The slot to be created already holds an account.
    AlreadyInitialized,
    /// An account is not of the kind its role asks for: a slot that should
    /// hold an account is empty, or a vault that should be fresh is taken.
    InvalidAccountOwnership,
    /// Two accounts that must belong together do not.
    InvalidAccountRelationship,
    /// The source token account holds less than the amount to move.
    InsufficientFunds,
    /// The position holds less than the amount to withdraw.
    InsufficientStake,
    /// A balance would exceed the 64-bit range.
    ArithmeticOverflow,
    /// A balance would drop below zero.
    ArithmeticUnderflow,
    /// The caller is not the identity that may authorize the action.
    AuthorizationFailure,
}

impl StakingError {
    /// A sentence for the caller to show.
    pub fn message(&self) -> (text: &'static str)
        ensures
            text@ == match *self {
                StakingError::AlreadyInitialized => "The account is already initialized."@,
                StakingError::InvalidAccountOwnership => "An account is not of the expected kind."@,
                StakingError::InvalidAccountRelationship => "The accounts do not belong together."@,
                StakingError::InsufficientFunds => "Insufficient funds in the source token account."@,
                StakingError::InsufficientStake => "Insufficient staked amount to unstake."@,
                StakingError::ArithmeticOverflow => "Arithmetic overflow."@,
                StakingError::ArithmeticUnderflow => "Arithmetic underflow."@,
                StakingError::AuthorizationFailure => "The caller may not authorize this action."@,
            },
    {
        match self {
            StakingError::AlreadyInitialized => "The account is already initialized.",
            StakingError::InvalidAccountOwnership => "An account is not of the expected kind.",
            StakingError::InvalidAccountRelationship => "The accounts do not belong together.",
            StakingError::InsufficientFunds => "Insufficient funds in the source token account.",
            StakingError::InsufficientStake => "Insufficient staked amount to unstake.",
            StakingError::ArithmeticOverflow => "Arithmetic overflow.",
            StakingError::ArithmeticUnderflow => "Arithmetic underflow.",
            StakingError::AuthorizationFailure => "The caller may not authorize this action.",
        }
    }
}

} // verus!
