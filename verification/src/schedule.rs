//! The mathematical model of a vesting record: what has vested at an
//! instant, and what a claim at that instant pays.

use vstd::prelude::*;
use crate::errors::CustomError;

verus! {

/// What an employee's vesting record holds, as plain mathematics.
pub struct RecordView {
    /// The vesting program the record belongs to.
    pub program_ref: Seq<u8>,
    /// Who may claim.
    pub beneficiary: Seq<u8>,
    /// When vesting starts accruing, in seconds.
    pub start_time: int,
    /// When the whole grant has vested.
    pub end_time: int,
    /// Before this instant nothing can be released.
    pub cliff_time: int,
    /// The grant.
    pub total_amount: int,
    /// What has been paid out so far.
    pub total_withdrawn: int,
}

/// A schedule is acceptable when it runs over a period of positive length,
/// its cliff lies within that period, and it grants something.
pub open spec fn valid_schedule(
    start_time: int,
    end_time: int,
    cliff_time: int,
    total_amount: int,
) -> bool {
    &&& end_time > start_time
    &&& start_time <= cliff_time <= end_time
    &&& total_amount > 0
}

/// Where a record stands on its way from nothing released to everything
/// vested. The phase is not stored: it follows from the schedule and the
/// instant at which it is asked for.
#[derive(Clone, Copy, Debug, PartialEq, Eq, Structural)]
pub enum VestingPhase {
    /// Before the cliff: nothing can be released.
    Unvested,
    /// From the cliff up to the end: the grant vests linearly.
    PartiallyVested,
    /// From the end on: the whole grant has vested.
    FullyVested,
}

impl VestingPhase {
    /// The place of a phase in the order in which a record passes them.
    pub open spec fn rank(self) -> int {
        match self {
            VestingPhase::Unvested => 0,
            VestingPhase::PartiallyVested => 1,
            VestingPhase::FullyVested => 2,
        }
    }
}

impl RecordView {
    /// The record's own invariant: an acceptable schedule, of which no more
    /// than the grant has been withdrawn.
    pub open spec fn wf(self) -> bool {
        &&& valid_schedule(self.start_time, self.end_time, self.cliff_time, self.total_amount)
        &&& 0 <= self.total_withdrawn <= self.total_amount
    }

    /// The amount vested at `now`: nothing before the cliff, everything from
    /// the end on, and in between the share of the grant that the time
    /// elapsed since the start is of the whole period, rounded down.
    pub open spec fn vested_at(self, now: int) -> int {
        if now < self.cliff_time {
            0
        } else if now >= self.end_time {
            self.total_amount
        } else {
            self.total_amount * (now - self.start_time) / (self.end_time - self.start_time)
        }
    }

    /// The phase of the record at `now`.
    pub open spec fn phase_at(self, now: int) -> VestingPhase {
        if now < self.cliff_time {
            VestingPhase::Unvested
        } else if now < self.end_time {
            VestingPhase::PartiallyVested
        } else {
            VestingPhase::FullyVested
        }
    }

    /// Whether the vesting product at `now` exceeds 64 bits. The product is
    /// only formed strictly between cliff and end.
    pub open spec fn overflows_at(self, now: int) -> bool {
        &&& self.cliff_time <= now < self.end_time
        &&& self.total_amount * (now - self.start_time) > u64::MAX
    }

    /// The record never runs ahead of its curve: once the cliff has passed
    /// and the vested amount can be computed, it covers what was withdrawn.
    pub open spec fn never_ahead_at(self, now: int) -> bool {
        self.cliff_time <= now && !self.overflows_at(now) ==> self.total_withdrawn
            <= self.vested_at(now)
    }

    /// What a claim at `now` yields: the amount to transfer, or the reason
    /// why nothing is transferred. Before the cliff no claim is available;
    /// from the cliff on the claim pays what has vested beyond what was
    /// withdrawn, if the vested amount can be computed and there is any.
    ///
    /// The model pays nothing on a record that is ahead of its curve
    /// ([`RecordView::never_ahead_at`] fails); no claim is ever executed on
    /// such a record.
    pub open spec fn claim_outcome(self, now: int) -> Result<int, CustomError> {
        if now < self.cliff_time {
            Err(CustomError::ClaimNotAvailableYet)
        } else if self.overflows_at(now) {
            Err(CustomError::CalculationOverflow)
        } else if self.vested_at(now) <= self.total_withdrawn {
            Err(CustomError::NothingToClaim)
        } else {
            Ok(self.vested_at(now) - self.total_withdrawn)
        }
    }

    /// What a claim at `now` transfers: the amount of a successful claim,
    /// nothing for a failed one.
    pub open spec fn paid_at(self, now: int) -> int {
        match self.claim_outcome(now) {
            Ok(amount) => amount,
            Err(_) => 0,
        }
    }

    /// The record after a claim at `now`: a successful claim adds the amount
    /// to what was withdrawn, a failed one changes nothing.
    pub open spec fn after_claim(self, now: int) -> RecordView {
        match self.claim_outcome(now) {
            Ok(amount) => RecordView { total_withdrawn: self.total_withdrawn + amount, ..self },
            Err(_) => self,
        }
    }

    /// The record after one claim at each of `times`, in that order.
    pub open spec fn after_claims(self, times: Seq<int>) -> RecordView
        decreases times.len(),
    {
        if times.len() == 0 {
            self
        } else {
            self.after_claim(times.first()).after_claims(times.drop_first())
        }
    }

    /// The sum of what the claims at `times`, made in that order, transfer.
    pub open spec fn paid_over(self, times: Seq<int>) -> int
        decreases times.len(),
    {
        if times.len() == 0 {
            0
        } else {
            self.paid_at(times.first()) + self.after_claim(times.first()).paid_over(
                times.drop_first(),
            )
        }
    }
}

} // verus!
