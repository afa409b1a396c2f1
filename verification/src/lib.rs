//! Token vesting: schedules that unlock a grant linearly over time behind a
//! cliff, and the claim state machine that pays out what has vested.
//!
//! A [`VestingProgram`] groups the employees of one company. Each employee
//! has an [`EmployeeVestingRecord`]: a schedule and the amount withdrawn so
//! far. [`vested_amount`] tells how much of a grant has vested at an instant,
//! and [`claim_token`] pays out what has vested and was not yet withdrawn.
//!
//! The library holds no clock, moves no funds and stores nothing: the caller
//! hands in the current time, performs the transfers that the results ask
//! for, and keeps the records.

pub mod employee;
pub mod engine;
pub mod errors;
pub mod identity;
pub mod laws;
pub mod program;
pub mod schedule;

pub use employee::{create_employee_account, schedule_is_valid, EmployeeVestingRecord};
pub use engine::{claim_token, claimable_amount, never_ahead, vested_amount, vesting_phase};
pub use errors::CustomError;
pub use identity::Identity;
pub use program::{
    check_company_name, create_vesting_account, NameError, ProgramView, VestingProgram,
    MAX_COMPANY_NAME_LEN,
};
pub use schedule::{valid_schedule, RecordView, VestingPhase};
