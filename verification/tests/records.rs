use vesting::{
    create_employee_account, create_vesting_account, schedule_is_valid, CustomError,
    EmployeeVestingRecord, Identity, NameError, VestingProgram, MAX_COMPANY_NAME_LEN,
};

fn owner() -> Identity {
    Identity::new([1; 32])
}

fn treasury() -> Identity {
    Identity::new([2; 32])
}

fn acme() -> VestingProgram {
    create_vesting_account(owner(), treasury(), String::from("acme")).unwrap()
}

#[test]
fn new_program_has_no_employees() {
    let p = acme();
    assert_eq!(p.owner(), owner());
    assert_eq!(p.treasury(), treasury());
    assert_eq!(p.company_name(), "acme");
    assert_eq!(p.employee_count(), 0);
}

#[test]
fn empty_name_is_refused() {
    assert_eq!(
        create_vesting_account(owner(), treasury(), String::new()),
        Err(NameError::Empty)
    );
}

#[test]
fn name_may_fill_the_reserved_room_exactly() {
    assert_eq!(MAX_COMPANY_NAME_LEN, 32);
    let name = "x".repeat(32);
    let p = create_vesting_account(owner(), treasury(), name.clone()).unwrap();
    assert_eq!(p.company_name(), name);
    assert_eq!(
        create_vesting_account(owner(), treasury(), "x".repeat(33)),
        Err(NameError::TooLong)
    );
}

#[test]
fn name_length_is_counted_in_bytes() {
    let ten = "\u{20ac}".repeat(10);
    assert_eq!(ten.len(), 30);
    assert!(create_vesting_account(owner(), treasury(), ten).is_ok());
    let eleven = "\u{20ac}".repeat(11);
    assert_eq!(eleven.chars().count(), 11);
    assert_eq!(
        create_vesting_account(owner(), treasury(), eleven),
        Err(NameError::TooLong)
    );
}

#[test]
fn check_company_name_agrees_with_creation() {
    assert_eq!(vesting::program::check_company_name("acme"), Ok(()));
    assert_eq!(vesting::program::check_company_name(""), Err(NameError::Empty));
    assert_eq!(
        vesting::program::check_company_name(&"y".repeat(40)),
        Err(NameError::TooLong)
    );
}

#[test]
fn restored_program_keeps_its_count() {
    let p = VestingProgram::from_parts(owner(), String::from("acme"), treasury(), 7).unwrap();
    assert_eq!(p.employee_count(), 7);
    assert_eq!(p.company_name(), "acme");
    assert!(VestingProgram::from_parts(owner(), String::new(), treasury(), 7).is_none());
    assert!(VestingProgram::from_parts(owner(), "z".repeat(33), treasury(), 7).is_none());
}

#[test]
fn cloned_program_is_equal() {
    let p = VestingProgram::from_parts(owner(), String::from("acme"), treasury(), 3).unwrap();
    let q = p.clone();
    assert_eq!(p, q);
}

#[test]
fn new_record_holds_the_schedule_and_nothing_withdrawn() {
    let mut p = acme();
    let program_ref = Identity::new([7; 32]);
    let beneficiary = Identity::new([8; 32]);
    let r = create_employee_account(&mut p, program_ref, beneficiary, 10, 500, 9000, 20).unwrap();
    assert_eq!(r.program_ref(), program_ref);
    assert_eq!(r.beneficiary(), beneficiary);
    assert_eq!(r.start_time(), 10);
    assert_eq!(r.end_time(), 500);
    assert_eq!(r.cliff_time(), 20);
    assert_eq!(r.total_amount(), 9000);
    assert_eq!(r.total_withdrawn(), 0);
    assert_eq!(p.employee_count(), 1);
}

#[test]
fn each_record_created_is_counted_once() {
    let mut p = acme();
    for n in 1..=5u8 {
        let who = Identity::new([n; 32]);
        create_employee_account(&mut p, treasury(), who, 0, 10, 1, 0).unwrap();
        assert_eq!(p.employee_count(), n as u64);
    }
    assert_eq!(p.owner(), owner());
    assert_eq!(p.company_name(), "acme");
}

fn refused(start: i64, end: i64, total: u64, cliff: i64) {
    let mut p = VestingProgram::from_parts(owner(), String::from("acme"), treasury(), 4).unwrap();
    let before = p.clone();
    assert_eq!(
        create_employee_account(&mut p, treasury(), owner(), start, end, total, cliff),
        Err(CustomError::InvalidVestingPeriod)
    );
    assert_eq!(p, before);
    assert!(!schedule_is_valid(start, end, cliff, total));
    assert!(EmployeeVestingRecord::from_parts(treasury(), owner(), start, end, cliff, total, 0)
        .is_none());
}

#[test]
fn period_of_no_length_is_refused() {
    refused(100, 100, 50, 100);
}

#[test]
fn period_that_runs_backwards_is_refused() {
    refused(100, 99, 50, 100);
    refused(i64::MAX, i64::MIN, 50, 0);
}

#[test]
fn cliff_after_end_is_refused() {
    refused(0, 100, 50, 101);
    refused(0, 100, 50, i64::MAX);
}

#[test]
fn cliff_before_start_is_refused() {
    refused(0, 100, 50, -1);
    refused(0, 100, 50, i64::MIN);
}

#[test]
fn empty_grant_is_refused() {
    refused(0, 100, 0, 50);
}

#[test]
fn cliff_may_sit_on_either_end() {
    let mut p = acme();
    assert!(create_employee_account(&mut p, treasury(), owner(), 0, 100, 1, 0).is_ok());
    assert!(create_employee_account(&mut p, treasury(), owner(), 0, 100, 1, 100).is_ok());
    assert!(schedule_is_valid(i64::MIN, i64::MAX, 0, u64::MAX));
    assert_eq!(p.employee_count(), 2);
}

#[test]
fn restored_record_with_more_withdrawn_than_granted_is_refused() {
    assert!(EmployeeVestingRecord::from_parts(treasury(), owner(), 0, 100, 50, 10, 11).is_none());
    let r = EmployeeVestingRecord::from_parts(treasury(), owner(), 0, 100, 50, 10, 10).unwrap();
    assert_eq!(r.total_withdrawn(), 10);
    assert_eq!(r.total_amount(), 10);
}

#[test]
fn identity_keeps_its_bytes() {
    let mut bytes = [0u8; 32];
    for (i, b) in bytes.iter_mut().enumerate() {
        *b = i as u8;
    }
    let id = Identity::new(bytes);
    assert_eq!(id.to_bytes(), bytes);
    assert_eq!(id, Identity(bytes));
    assert_ne!(id, Identity::new([0; 32]));
}

#[test]
fn every_error_has_its_message() {
    assert_eq!(CustomError::ClaimNotAvailableYet.message(), "Claim not available yet");
    assert_eq!(CustomError::InvalidVestingPeriod.message(), "Invalid vesting period");
    assert_eq!(CustomError::CalculationOverflow.message(), "Calculation overflow occurred");
    assert_eq!(CustomError::NothingToClaim.message(), "Nothing to claim");
}
