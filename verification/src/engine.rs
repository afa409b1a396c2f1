//! The vesting engine: how much of a grant has vested at an instant, and
//! the claim that pays out the part not yet withdrawn.

use vstd::prelude::*;
use crate::employee::EmployeeVestingRecord;
use crate::errors::CustomError;
use crate::laws::lemma_vested_within_grant;
use crate::schedule::{RecordView, VestingPhase};

verus! {

/// The seconds from `from` to `to`.
fn seconds_between(from: i64, to: i64) -> (span: u64)
    requires
        from <= to,
    ensures
        span == to - from,
{
    (to as i128 - from as i128) as u64
}

/// The phase of `record` at `now`: before its cliff, between cliff and end,
/// or at or past its end.
pub fn vesting_phase(record: &EmployeeVestingRecord, now: i64) -> (phase: VestingPhase)
    ensures
        phase == record@.phase_at(now as int),
{
    if now < record.cliff_time() {
        VestingPhase::Unvested
    } else if now < record.end_time() {
        VestingPhase::PartiallyVested
    } else {
        VestingPhase::FullyVested
    }
}

/// The amount of `record`'s grant that has vested at `now`.
///
/// Before the cliff nothing has vested, from the end on everything has. In
/// between the grant vests linearly over the whole period from start to end,
/// rounded down; the cliff delays the release and does not change the slope.
/// The product of the grant and the elapsed seconds is formed in 64 bits, and
/// the call fails with `CalculationOverflow` exactly when it does not fit.
pub fn vested_amount(record: &EmployeeVestingRecord, now: i64) -> (result: Result<
    u64,
    CustomError,
>)
    ensures
        match result {
            Ok(vested) => {
                &&& !record@.overflows_at(now as int)
                &&& vested == record@.vested_at(now as int)
                &&& vested <= record@.total_amount
            },
            Err(e) => e == CustomError::CalculationOverflow && record@.overflows_at(now as int),
        },
{
    proof {
        use_type_invariant(record);
        lemma_vested_within_grant(*record, now as int);
    }
    if now < record.cliff_time() {
        return Ok(0);
    }
    let total: u64 = record.total_amount();
    if now >= record.end_time() {
        return Ok(total);
    }
    let elapsed: u64 = seconds_between(record.start_time(), now);
    let duration: u64 = seconds_between(record.start_time(), record.end_time());
    match total.checked_mul(elapsed) {
        Some(product) => {
            let share: u64 = product / duration;
            // The share cannot exceed the grant; the bound is kept as a guard.
            if share > total {
                Ok(total)
            } else {
                Ok(share)
            }
        },
        None => Err(CustomError::CalculationOverflow),
    }
}

/// Tells whether `record` is not ahead of its curve at `now`: whether,
/// once the cliff has passed and the vested amount can be computed, that
/// amount covers what was withdrawn. A record that is ahead has been claimed
/// on at a later instant than `now`; no claim can be made on it at `now`.
pub fn never_ahead(record: &EmployeeVestingRecord, now: i64) -> (ok: bool)
    ensures
        ok == record@.never_ahead_at(now as int),
{
    if now < record.cliff_time() {
        return true;
    }
    match vested_amount(record, now) {
        Ok(vested) => record.total_withdrawn() <= vested,
        Err(_) => true,
    }
}

/// What a claim on `record` at `now` would transfer, without making it.
///
/// Fails with `ClaimNotAvailableYet` before the cliff, with
/// `CalculationOverflow` when the vested amount cannot be computed, and with
/// `NothingToClaim` when everything vested so far has been withdrawn.
pub fn claimable_amount(record: &EmployeeVestingRecord, now: i64) -> (result: Result<
    u64,
    CustomError,
>)
    requires
        record@.never_ahead_at(now as int),
    ensures
        match result {
            Ok(amount) => record@.claim_outcome(now as int) == Ok::<int, CustomError>(
                amount as int,
            ),
            Err(e) => record@.claim_outcome(now as int) == Err::<int, CustomError>(e),
        },
{
    let vested: u64 = vested_amount(record, now)?;
    if now < record.cliff_time() {
        return Err(CustomError::ClaimNotAvailableYet);
    }
    let claimable: u64 = vested - record.total_withdrawn();
    if claimable == 0 {
        return Err(CustomError::NothingToClaim);
    }
    Ok(claimable)
}

/// Claims on `record` at `now` everything that has vested and was not yet
/// withdrawn, and returns the amount to transfer to the beneficiary.
///
/// On success the amount is added to what the record counts as withdrawn; on
/// failure the record is left as it was. The caller must treat the change of
/// the record and the transfer as one unit: where the transfer cannot be
/// requested, the changed record must not be stored.
pub fn claim_token(record: &mut EmployeeVestingRecord, now: i64) -> (result: Result<
    u64,
    CustomError,
>)
    requires
        old(record)@.never_ahead_at(now as int),
    ensures
        match result {
            Ok(amount) => {
                &&& old(record)@.claim_outcome(now as int) == Ok::<int, CustomError>(amount as int)
                &&& amount > 0
                &&& final(record)@ == (RecordView {
                    total_withdrawn: old(record)@.total_withdrawn + amount,
                    ..old(record)@
                })
            },
            Err(e) => {
                &&& old(record)@.claim_outcome(now as int) == Err::<int, CustomError>(e)
                &&& final(record)@ == old(record)@
            },
        },
        final(record)@ == old(record)@.after_claim(now as int),
        final(record)@.total_withdrawn <= old(record)@.total_amount,
        final(record)@.never_ahead_at(now as int),
        now < old(record)@.cliff_time ==> result == Err::<u64, CustomError>(
            CustomError::ClaimNotAvailableYet,
        ),
{
    proof {
        use_type_invariant(&*record);
    }
    match claimable_amount(record, now) {
        Ok(claimable) => {
            proof {
                lemma_vested_within_grant(*record, now as int);
            }
            record.record_withdrawal(claimable);
            Ok(claimable)
        },
        Err(e) => Err(e),
    }
}

} // verus!
