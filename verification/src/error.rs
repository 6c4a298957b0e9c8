//! The ways an operation on the ledger can fail.

use vstd::prelude::*;

verus! {

/// Why an operation was refused.
#[derive(Clone, Copy, Debug, PartialEq, Eq, Structural)]
pub enum StakingError {
    /// The caller is not the owner of the record.
    Unauthorized,
    /// An unstake asked for more than is staked.
    InsufficientStakedAmount,
    /// The paying side of a transfer cannot cover the amount.
    InsufficientFunds,
    /// There is no record for the owner.
    RecordNotFound,
    /// A concurrent change to the record won the race.
    StorageConflict,
    /// A balance would leave the range of its 64-bit field.
    Overflow,
}

impl StakingError {
    /// The text of [`StakingError::message`].
    pub open spec fn message_text(self) -> Seq<char> {
        match self {
            StakingError::Unauthorized => "Invalid owner"@,
            StakingError::InsufficientStakedAmount => "Insufficient staked amount"@,
            StakingError::InsufficientFunds => "Insufficient funds"@,
            StakingError::RecordNotFound => "Staking record not found"@,
            StakingError::StorageConflict => "Staking record changed concurrently"@,
            StakingError::Overflow => "Arithmetic overflow"@,
        }
    }

    /// A short description of the error for people to read.
    pub fn message(&self) -> (text: &'static str)
        ensures
            text@ == self.message_text(),
    {
        match self {
            StakingError::Unauthorized => "Invalid owner",
            StakingError::InsufficientStakedAmount => "Insufficient staked amount",
            StakingError::InsufficientFunds => "Insufficient funds",
            StakingError::RecordNotFound => "Staking record not found",
            StakingError::StorageConflict => "Staking record changed concurrently",
            StakingError::Overflow => "Arithmetic overflow",
        }
    }
}

} // verus!
