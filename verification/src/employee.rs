//! An employee's vesting record and its creation under a vesting program.

use vstd::prelude::*;
use crate::errors::CustomError;
use crate::identity::Identity;
use crate::program::{ProgramView, VestingProgram};
use crate::schedule::{valid_schedule, RecordView};

verus! {

/// One employee's schedule and how much of the grant has been paid out.
///
/// A record always holds an acceptable schedule and never more withdrawn
/// than granted; it is created by [`create_employee_account`], restored from
/// stored values by [`EmployeeVestingRecord::from_parts`], and changed only
/// by successful claims.
#[derive(Clone, Copy, Debug, PartialEq, Eq)]
pub struct EmployeeVestingRecord {
    program_ref: Identity,
    beneficiary: Identity,
    start_time: i64,
    end_time: i64,
    cliff_time: i64,
    total_amount: u64,
    total_withdrawn: u64,
}

impl View for EmployeeVestingRecord {
    type V = RecordView;

    closed spec fn view(&self) -> RecordView {
        RecordView {
            program_ref: self.program_ref@,
            beneficiary: self.beneficiary@,
            start_time: self.start_time as int,
            end_time: self.end_time as int,
            cliff_time: self.cliff_time as int,
            total_amount: self.total_amount as int,
            total_withdrawn: self.total_withdrawn as int,
        }
    }
}

/// Tells whether a schedule is acceptable.
pub fn schedule_is_valid(start_time: i64, end_time: i64, cliff_time: i64, total_amount: u64) -> (ok:
    bool)
    ensures
        ok == valid_schedule(
            start_time as int,
            end_time as int,
            cliff_time as int,
            total_amount as int,
        ),
{
    end_time > start_time && cliff_time >= start_time && cliff_time <= end_time && total_amount > 0
}

/// Creates the vesting record of `beneficiary` under `program`, which is
/// stored at `program_ref`, and counts it in the program.
///
/// The schedule is refused with `InvalidVestingPeriod`, and nothing is
/// changed, unless `end_time > start_time`, the cliff lies between the two
/// (either end included) and `total_amount > 0`. A new record has nothing
/// withdrawn.
///
/// The caller reserves `total_amount` in the program's treasury for the new
/// record. Where that fails, neither the record nor the changed program may
/// be stored.
pub fn create_employee_account(
    program: &mut VestingProgram,
    program_ref: Identity,
    beneficiary: Identity,
    start_time: i64,
    end_time: i64,
    total_amount: u64,
    cliff_time: i64,
) -> (result: Result<EmployeeVestingRecord, CustomError>)
    requires
        old(program)@.employee_count < u64::MAX,
    ensures
        match result {
            Ok(record) => {
                &&& valid_schedule(
                    start_time as int,
                    end_time as int,
                    cliff_time as int,
                    total_amount as int,
                )
                &&& record@ == (RecordView {
                    program_ref: program_ref@,
                    beneficiary: beneficiary@,
                    start_time: start_time as int,
                    end_time: end_time as int,
                    cliff_time: cliff_time as int,
                    total_amount: total_amount as int,
                    total_withdrawn: 0,
                })
                &&& final(program)@ == (ProgramView {
                    employee_count: old(program)@.employee_count + 1,
                    ..old(program)@
                })
            },
            Err(e) => {
                &&& e == CustomError::InvalidVestingPeriod
                &&& !valid_schedule(
                    start_time as int,
                    end_time as int,
                    cliff_time as int,
                    total_amount as int,
                )
                &&& final(program)@ == old(program)@
            },
        },
{
    if !schedule_is_valid(start_time, end_time, cliff_time, total_amount) {
        return Err(CustomError::InvalidVestingPeriod);
    }
    program.count_employee();
    Ok(
        EmployeeVestingRecord {
            program_ref,
            beneficiary,
            start_time,
            end_time,
            cliff_time,
            total_amount,
            total_withdrawn: 0,
        },
    )
}

impl EmployeeVestingRecord {
    /// The invariant every record satisfies.
    #[verifier::type_invariant]
    pub open spec fn wf(&self) -> bool {
        self@.wf()
    }

    /// Restores a record from stored values. Gives `None` exactly when they
    /// break the record's invariant: a malformed schedule, or more withdrawn
    /// than granted.
    pub fn from_parts(
        program_ref: Identity,
        beneficiary: Identity,
        start_time: i64,
        end_time: i64,
        cliff_time: i64,
        total_amount: u64,
        total_withdrawn: u64,
    ) -> (result: Option<EmployeeVestingRecord>)
        ensures
            result is Some <==> valid_schedule(
                start_time as int,
                end_time as int,
                cliff_time as int,
                total_amount as int,
            ) && total_withdrawn <= total_amount,
            result matches Some(record) ==> record@ == (RecordView {
                program_ref: program_ref@,
                beneficiary: beneficiary@,
                start_time: start_time as int,
                end_time: end_time as int,
                cliff_time: cliff_time as int,
                total_amount: total_amount as int,
                total_withdrawn: total_withdrawn as int,
            }),
    {
        if schedule_is_valid(start_time, end_time, cliff_time, total_amount) && total_withdrawn
            <= total_amount {
            Some(
                EmployeeVestingRecord {
                    program_ref,
                    beneficiary,
                    start_time,
                    end_time,
                    cliff_time,
                    total_amount,
                    total_withdrawn,
                },
            )
        } else {
            None
        }
    }

    /// The vesting program the record belongs to.
    pub fn program_ref(&self) -> (id: Identity)
        ensures
            id@ == self@.program_ref,
    {
        self.program_ref
    }

    /// Who may claim.
    pub fn beneficiary(&self) -> (id: Identity)
        ensures
            id@ == self@.beneficiary,
    {
        self.beneficiary
    }

    /// When vesting starts accruing.
    pub fn start_time(&self) -> (t: i64)
        ensures
            t == self@.start_time,
    {
        self.start_time
    }

    /// When the whole grant has vested.
    pub fn end_time(&self) -> (t: i64)
        ensures
            t == self@.end_time,
    {
        self.end_time
    }

    /// The instant before which nothing can be released.
    pub fn cliff_time(&self) -> (t: i64)
        ensures
            t == self@.cliff_time,
    {
        self.cliff_time
    }

    /// The grant.
    pub fn total_amount(&self) -> (amount: u64)
        ensures
            amount == self@.total_amount,
    {
        self.total_amount
    }

    /// What has been paid out so far.
    pub fn total_withdrawn(&self) -> (amount: u64)
        ensures
            amount == self@.total_withdrawn,
    {
        self.total_withdrawn
    }

    pub(crate) fn record_withdrawal(&mut self, amount: u64)
        requires
            old(self)@.total_withdrawn + amount <= old(self)@.total_amount,
        ensures
            final(self)@ == (RecordView {
                total_withdrawn: old(self)@.total_withdrawn + amount,
                ..old(self)@
            }),
    {
        proof {
            use_type_invariant(&*self);
        }
        self.total_withdrawn = self.total_withdrawn + amount;
    }
}

} // verus!
