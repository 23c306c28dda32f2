use vstd::prelude::*;

verus! {

/// Every failure the ledger core can report. Errors are plain values: a
/// rejected operation returns one of these and leaves the ledger untouched.
#[derive(Debug, Clone, Copy, PartialEq, Eq)]
pub enum StakingError {
    /// The instruction buffer is empty, its tag is unknown, or its payload
    /// is shorter than the tag requires.
    InvalidInstruction,
    /// A requested amount exceeds the balance that backs it.
    InsufficientFunds,
    /// An attempt to initialize a pool that is already initialized.
    AccountAlreadyInitialized,
    /// An access to the validator registry past its current or maximum size.
    ValidatorIndexOutOfBounds,
    /// A zero or otherwise unusable requested amount.
    InvalidAmount,
    /// Reward compounding was asked of a pool whose state cannot absorb it.
    CompoundingError,
    /// Pool policy forbids an emergency unstake at this moment.
    EmergencyUnstakeNotAllowed,
    /// A source buffer too short to hold the record being decoded.
    InvalidAccountData,
}

impl StakingError {
    /// Stable numeric code of each error, for hosts that surface errors as
    /// integers.
    pub open spec fn spec_code(self) -> u32 {
        match self {
            StakingError::InvalidInstruction => 0,
            StakingError::InsufficientFunds => 1,
            StakingError::AccountAlreadyInitialized => 2,
            StakingError::ValidatorIndexOutOfBounds => 3,
            StakingError::InvalidAmount => 4,
            StakingError::CompoundingError => 5,
            StakingError::EmergencyUnstakeNotAllowed => 6,
            StakingError::InvalidAccountData => 7,
        }
    }

    /// Numeric code of the error.
    pub fn code(&self) -> (r: u32)
        ensures
            r == self.spec_code(),
    {
        match self {
            StakingError::InvalidInstruction => 0,
            StakingError::InsufficientFunds => 1,
            StakingError::AccountAlreadyInitialized => 2,
            StakingError::ValidatorIndexOutOfBounds => 3,
            StakingError::InvalidAmount => 4,
            StakingError::CompoundingError => 5,
            StakingError::EmergencyUnstakeNotAllowed => 6,
            StakingError::InvalidAccountData => 7,
        }
    }
}

} // verus!
