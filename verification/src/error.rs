//! The failure kinds of the staking pool.

use vstd::prelude::*;

verus! {

/// Why an operation was rejected. A rejected operation changes nothing.
#[derive(Clone, Copy, Debug, PartialEq, Eq, Structural)]
pub enum StakeError {
    /// The inclusion proof does not lead from the asset's leaf to the
    /// published root.
    InvalidProof,
    /// The paying account holds less than the amount asked for.
    NoEnoughSol,
    /// Reserved: no operation returns it.
    StartEpoch2,
    /// The epoch cannot be advanced from here: it is the first one, or its
    /// seven-day window has already passed.
    EpochWrongDays,
    /// All 52 epochs have run, or the epoch is not at its first day.
    EpochEnd,
    /// The pool was seeded before.
    EpochAlreadyStarted,
    /// Reserved: no operation returns it.
    ClaimAmountBig,
    /// The shared day counter is out of range.
    WrongEpochDay,
    /// The clock is outside the one-minute window after a daily boundary.
    NoDaily,
    /// A record does not belong to the account it was presented with.
    WrongOwner,
    /// Reserved: no operation returns it.
    NoStaker,
    /// A record that is created once was presented for creation again.
    AccountAlreadyInitialized,
    /// A record was used before it was created.
    UninitializedAccount,
    /// The caller is not the administrator recorded in the allow list.
    Unauthorized,
    /// A counter or a balance would leave the range of its type.
    ArithmeticOverflow,
    /// The treasury holds less than the reward that is claimed.
    InsufficientTreasury,
}

impl StakeError {
    /// The text shown to a user for this failure.
    pub open spec fn message_text(self) -> Seq<char> {
        match self {
            StakeError::InvalidProof => "Invalid Merkle proof."@,
            StakeError::NoEnoughSol => "You must have some SOL"@,
            StakeError::StartEpoch2 => "This is not available from epoch 2"@,
            StakeError::EpochWrongDays => "Epoch days are wrong"@,
            StakeError::EpochEnd => "The 52 epoches are ended"@,
            StakeError::EpochAlreadyStarted => "The staking is already initialized"@,
            StakeError::ClaimAmountBig => "Claim amount is wrong"@,
            StakeError::WrongEpochDay => "The days of Epoch is over"@,
            StakeError::NoDaily => "Calculate reward one time every day"@,
            StakeError::WrongOwner => "The owner of nft is wrong"@,
            StakeError::NoStaker => "There is no stakers"@,
            StakeError::AccountAlreadyInitialized => "The account is already initialized"@,
            StakeError::UninitializedAccount => "The account is not initialized"@,
            StakeError::Unauthorized => "The caller is not the administrator"@,
            StakeError::ArithmeticOverflow => "Arithmetic overflow"@,
            StakeError::InsufficientTreasury => "The treasury cannot pay this reward"@,
        }
    }

    pub fn message(&self) -> (text: &'static str)
        ensures
            text@ == self.message_text(),
    {
        match self {
            StakeError::InvalidProof => "Invalid Merkle proof.",
            StakeError::NoEnoughSol => "You must have some SOL",
            StakeError::StartEpoch2 => "This is not available from epoch 2",
            StakeError::EpochWrongDays => "Epoch days are wrong",
            StakeError::EpochEnd => "The 52 epoches are ended",
            StakeError::EpochAlreadyStarted => "The staking is already initialized",
            StakeError::ClaimAmountBig => "Claim amount is wrong",
            StakeError::WrongEpochDay => "The days of Epoch is over",
            StakeError::NoDaily => "Calculate reward one time every day",
            StakeError::WrongOwner => "The owner of nft is wrong",
            StakeError::NoStaker => "There is no stakers",
            StakeError::AccountAlreadyInitialized => "The account is already initialized",
            StakeError::UninitializedAccount => "The account is not initialized",
            StakeError::Unauthorized => "The caller is not the administrator",
            StakeError::ArithmeticOverflow => "Arithmetic overflow",
            StakeError::InsufficientTreasury => "The treasury cannot pay this reward",
        }
    }
}

/// An operation and its specification agree: where `expected` is `Ok`, the
/// operation succeeded and left exactly those records; where it is `Err`,
/// the operation failed with that error and left the records untouched.
pub open spec fn follows<C, T>(
    expected: Result<C, StakeError>,
    before: C,
    after: C,
    result: Result<T, StakeError>,
) -> bool {
    match expected {
        Ok(next) => result is Ok && after == next,
        Err(e) => result is Err && result->Err_0 == e && after == before,
    }
}

} // verus!
