//! What holds of every vesting record, proved over the model that the
//! engine's contracts are stated in.

use vstd::prelude::*;
use crate::employee::EmployeeVestingRecord;
use crate::errors::CustomError;
use crate::schedule::{RecordView, VestingPhase};

verus! {

proof fn lemma_share_bounded(total: int, elapsed: int, duration: int)
    by (nonlinear_arith)
    requires
        0 <= total,
        0 <= elapsed <= duration,
        0 < duration,
    ensures
        0 <= total * elapsed / duration <= total,
{
}

proof fn lemma_share_ordered(total: int, earlier: int, later: int, duration: int)
    by (nonlinear_arith)
    requires
        0 <= total,
        0 <= earlier <= later,
        0 < duration,
    ensures
        total * earlier / duration <= total * later / duration,
{
}

proof fn lemma_share_small(total: int, elapsed: int, duration: int)
    by (nonlinear_arith)
    requires
        0 <= total * elapsed < duration,
    ensures
        total * elapsed / duration == 0,
{
}

proof fn lemma_model_vested_within_grant(r: RecordView, now: int)
    requires
        r.wf(),
    ensures
        0 <= r.vested_at(now) <= r.total_amount,
{
    if r.cliff_time <= now < r.end_time {
        lemma_share_bounded(r.total_amount, now - r.start_time, r.end_time - r.start_time);
    }
}

proof fn lemma_model_conservation(r: RecordView, times: Seq<int>)
    requires
        r.wf(),
    ensures
        r.after_claims(times).wf(),
        r.after_claims(times).total_amount == r.total_amount,
        r.after_claims(times).total_withdrawn == r.total_withdrawn + r.paid_over(times),
        0 <= r.paid_over(times),
    decreases times.len(),
{
    if times.len() > 0 {
        lemma_model_vested_within_grant(r, times.first());
        lemma_model_conservation(r.after_claim(times.first()), times.drop_first());
    }
}

/// The vested amount always lies between nothing and the whole grant.
pub proof fn lemma_vested_within_grant(record: EmployeeVestingRecord, now: int)
    requires
        record.wf(),
    ensures
        0 <= record@.vested_at(now) <= record@.total_amount,
{
    lemma_model_vested_within_grant(record@, now);
}

/// Vesting never goes back: at a later instant at least as much has vested
/// as at an earlier one. The amounts that `vested_amount` returns are these,
/// wherever it returns one.
pub proof fn lemma_vested_monotonic(record: EmployeeVestingRecord, t1: int, t2: int)
    requires
        record.wf(),
        t1 <= t2,
    ensures
        record@.vested_at(t1) <= record@.vested_at(t2),
{
    let r = record@;
    lemma_vested_within_grant(record, t1);
    lemma_vested_within_grant(record, t2);
    if r.cliff_time <= t1 && t2 < r.end_time {
        lemma_share_ordered(
            r.total_amount,
            t1 - r.start_time,
            t2 - r.start_time,
            r.end_time - r.start_time,
        );
    }
}

/// At the end of the period the whole grant has vested, to the last unit,
/// and no product has to be formed to know it.
pub proof fn lemma_fully_vested_at_end(record: EmployeeVestingRecord)
    requires
        record.wf(),
    ensures
        record@.vested_at(record@.end_time) == record@.total_amount,
        !record@.overflows_at(record@.end_time),
{
}

/// At a cliff that lies after the start nothing has vested yet, provided the
/// linear share reached at the cliff is still less than one unit. The cliff
/// delays the release and does not change the slope: at the cliff itself the
/// amount vested is the linear share, whatever it is.
pub proof fn lemma_nothing_vested_at_cliff(record: EmployeeVestingRecord)
    requires
        record.wf(),
        record@.cliff_time > record@.start_time,
        record@.total_amount * (record@.cliff_time - record@.start_time) < record@.end_time
            - record@.start_time,
    ensures
        record@.vested_at(record@.cliff_time) == 0,
{
    let r = record@;
    if r.cliff_time < r.end_time {
        assert(0 <= r.total_amount * (r.cliff_time - r.start_time)) by (nonlinear_arith)
            requires
                0 <= r.total_amount,
                0 <= r.cliff_time - r.start_time,
        ;
        lemma_share_small(r.total_amount, r.cliff_time - r.start_time, r.end_time - r.start_time);
    } else {
        assert(r.total_amount * (r.cliff_time - r.start_time) >= r.cliff_time - r.start_time)
            by (nonlinear_arith)
            requires
                1 <= r.total_amount,
                0 <= r.cliff_time - r.start_time,
        ;
    }
}

/// Before the cliff a claim fails with `ClaimNotAvailableYet` and leaves the
/// record as it was, however much of the grant the time elapsed since the
/// start would amount to.
pub proof fn lemma_cliff_gates_claims(record: EmployeeVestingRecord, now: int)
    requires
        record.wf(),
        now < record@.cliff_time,
    ensures
        record@.vested_at(now) == 0,
        record@.claim_outcome(now) == Err::<int, CustomError>(CustomError::ClaimNotAvailableYet),
        record@.after_claim(now) == record@,
{
}

/// A claim keeps the record's invariant: what was withdrawn never goes
/// down, grows by exactly the amount the claim transfers, and stays within
/// the grant. A claim transfers a positive amount exactly when it succeeds.
pub proof fn lemma_claim_step(record: EmployeeVestingRecord, now: int)
    requires
        record.wf(),
    ensures
        record@.after_claim(now).wf(),
        record@.after_claim(now).total_withdrawn == record@.total_withdrawn + record@.paid_at(now),
        record@.total_withdrawn <= record@.after_claim(now).total_withdrawn
            <= record@.total_amount,
        record@.claim_outcome(now) is Ok <==> record@.paid_at(now) > 0,
        record@.paid_at(now) >= 0,
{
    lemma_vested_within_grant(record, now);
}

/// Of two claims made at the same instant, from the cliff on and where the
/// vested amount can be computed, the second fails with `NothingToClaim`:
/// the first has taken everything there was.
pub proof fn lemma_repeated_claim_pays_nothing(record: EmployeeVestingRecord, now: int)
    requires
        record.wf(),
        record@.cliff_time <= now,
        !record@.overflows_at(now),
    ensures
        record@.after_claim(now).claim_outcome(now) == Err::<int, CustomError>(
            CustomError::NothingToClaim,
        ),
        record@.after_claim(now).after_claim(now) == record@.after_claim(now),
{
}

/// A record that is not ahead of its curve at one instant is not ahead of
/// it after a claim made then, at that instant or any later one. So with a
/// clock that never runs back, a record that starts with nothing withdrawn
/// stays at or below its curve for good.
pub proof fn lemma_claims_stay_on_curve(record: EmployeeVestingRecord, now: int, later: int)
    requires
        record.wf(),
        record@.total_withdrawn <= record@.vested_at(now),
        now <= later,
    ensures
        record@.after_claim(now).total_withdrawn <= record@.after_claim(now).vested_at(later),
        record@.after_claim(now).never_ahead_at(later),
{
    lemma_vested_monotonic(record, now, later);
}

/// Whatever the instants at which claims are made on a record, and in
/// whatever order, what they transfer in sum never exceeds what was left of
/// the grant: the withdrawn amount grows by exactly that sum and stays
/// within the grant. For a new record the sum never exceeds the grant.
///
/// `claim_token` leaves a record as [`RecordView::after_claim`] says and
/// returns what [`RecordView::claim_outcome`] says, so this holds of every
/// run of calls of it.
pub proof fn lemma_conservation(record: EmployeeVestingRecord, times: Seq<int>)
    requires
        record.wf(),
    ensures
        0 <= record@.paid_over(times),
        record@.total_withdrawn + record@.paid_over(times) <= record@.total_amount,
        record@.after_claims(times).total_withdrawn == record@.total_withdrawn
            + record@.paid_over(times),
        record@.after_claims(times).wf(),
        record@.total_withdrawn == 0 ==> record@.paid_over(times) <= record@.total_amount,
{
    lemma_model_conservation(record@, times);
}

/// A record passes its phases in one direction only: at a later instant it
/// is never in an earlier phase. Before the cliff nothing has vested and no
/// claim is available, and from the end on the whole grant has vested.
pub proof fn lemma_phases_in_order(record: EmployeeVestingRecord, t1: int, t2: int)
    requires
        record.wf(),
        t1 <= t2,
    ensures
        record@.phase_at(t1).rank() <= record@.phase_at(t2).rank(),
        record@.phase_at(t1) == VestingPhase::Unvested <==> record@.claim_outcome(t1) == Err::<
            int,
            CustomError,
        >(CustomError::ClaimNotAvailableYet),
        record@.phase_at(t1) == VestingPhase::Unvested ==> record@.vested_at(t1) == 0,
        record@.phase_at(t1) == VestingPhase::FullyVested ==> record@.vested_at(t1)
            == record@.total_amount,
{
}

} // verus!
