//! The closed set of failures a vesting operation can report.

use vstd::prelude::*;

verus! {

/// Why a vesting operation was refused. Every variant is terminal for the
/// call that reports it: nothing is changed when one is returned.
#[derive(Clone, Copy, Debug, PartialEq, Eq, Structural)]
pub enum CustomError {
    /// A claim was attempted before the cliff of the schedule.
    ClaimNotAvailableYet,
    /// The schedule handed to record creation is malformed.
    InvalidVestingPeriod,
    /// The vesting product does not fit in 64 bits.
    CalculationOverflow,
    /// Everything vested so far has already been withdrawn.
    NothingToClaim,
}

impl CustomError {
    /// The fixed text that describes this failure.
    pub fn message(&self) -> (text: &'static str)
        ensures
            text@ == self.message_text(),
    {
        match self {
            CustomError::ClaimNotAvailableYet => "Claim not available yet",
            CustomError::InvalidVestingPeriod => "Invalid vesting period",
            CustomError::CalculationOverflow => "Calculation overflow occurred",
            CustomError::NothingToClaim => "Nothing to claim",
        }
    }

    /// The characters of [`CustomError::message`].
    pub open spec fn message_text(&self) -> Seq<char> {
        match self {
            CustomError::ClaimNotAvailableYet => "Claim not available yet"@,
            CustomError::InvalidVestingPeriod => "Invalid vesting period"@,
            CustomError::CalculationOverflow => "Calculation overflow occurred"@,
            CustomError::NothingToClaim => "Nothing to claim"@,
        }
    }
}

} // verus!
