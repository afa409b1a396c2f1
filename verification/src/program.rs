//! A company's vesting program: the record that groups its employees.

use vstd::prelude::*;
use vstd::string::StringSliceAdditionalSpecFns;
use crate::identity::Identity;

verus! {

/// The most bytes a company name may take: the room reserved for the name in
/// a stored program record.
pub const MAX_COMPANY_NAME_LEN: usize = 32;

/// Why a company name was refused.
#[derive(Clone, Copy, Debug, PartialEq, Eq, Structural)]
pub enum NameError {
    /// The name is empty.
    Empty,
    /// The name takes more than [`MAX_COMPANY_NAME_LEN`] bytes.
    TooLong,
}

/// The bytes a name takes when stored.
pub open spec fn name_bytes(name: Seq<char>) -> nat {
    vstd::utf8::encode_utf8(name).len()
}

/// A company name is acceptable when it is not empty and fits the room
/// reserved for it.
pub open spec fn valid_company_name(name: Seq<char>) -> bool {
    &&& name.len() > 0
    &&& name_bytes(name) <= MAX_COMPANY_NAME_LEN
}

/// What a vesting program record holds, as plain mathematics.
pub struct ProgramView {
    /// Who created the program and administers it.
    pub owner: Seq<u8>,
    /// The label of the program.
    pub company_name: Seq<char>,
    /// The pool the program pays from.
    pub treasury: Seq<u8>,
    /// How many employee records were created under the program.
    pub employee_count: int,
}

impl ProgramView {
    /// The program's own invariant: its name is acceptable.
    pub open spec fn wf(self) -> bool {
        &&& valid_company_name(self.company_name)
        &&& 0 <= self.employee_count
    }

    /// What identifies a program: its owner and its name. A program record
    /// is stored where this pair says, so no two programs share one.
    pub open spec fn key(self) -> (Seq<u8>, Seq<char>) {
        (self.owner, self.company_name)
    }
}

/// A named vesting program of one owner.
///
/// Owner, name and treasury are fixed at creation; the only thing that ever
/// changes is the count of employee records, which grows by one with each
/// record created.
#[derive(Debug, PartialEq, Eq)]
pub struct VestingProgram {
    owner: Identity,
    company_name: String,
    treasury: Identity,
    employee_count: u64,
}

impl View for VestingProgram {
    type V = ProgramView;

    closed spec fn view(&self) -> ProgramView {
        ProgramView {
            owner: self.owner@,
            company_name: self.company_name@,
            treasury: self.treasury@,
            employee_count: self.employee_count as int,
        }
    }
}

/// Tells whether `name` is acceptable, and if not, why.
pub fn check_company_name(name: &str) -> (result: Result<(), NameError>)
    ensures
        result is Ok <==> valid_company_name(name@),
        result == Err::<(), NameError>(NameError::Empty) <==> name@.len() == 0,
        result == Err::<(), NameError>(NameError::TooLong) <==> name@.len() > 0 && name_bytes(
            name@,
        ) > MAX_COMPANY_NAME_LEN,
{
    if name.is_empty() {
        Err(NameError::Empty)
    } else if name.as_bytes().len() > MAX_COMPANY_NAME_LEN {
        Err(NameError::TooLong)
    } else {
        Ok(())
    }
}

impl Clone for VestingProgram {
    fn clone(&self) -> (copy: VestingProgram)
        ensures
            copy@ == self@,
    {
        proof {
            use_type_invariant(self);
        }
        VestingProgram {
            owner: self.owner,
            company_name: self.company_name.clone(),
            treasury: self.treasury,
            employee_count: self.employee_count,
        }
    }
}

impl VestingProgram {
    /// The invariant every program record satisfies.
    #[verifier::type_invariant]
    pub open spec fn wf(&self) -> bool {
        self@.wf()
    }

    /// Restores a program record from stored values. Gives `None` exactly
    /// when the name is not acceptable.
    pub fn from_parts(
        owner: Identity,
        company_name: String,
        treasury: Identity,
        employee_count: u64,
    ) -> (result: Option<VestingProgram>)
        ensures
            result is Some <==> valid_company_name(company_name@),
            result matches Some(program) ==> program@ == (ProgramView {
                owner: owner@,
                company_name: company_name@,
                treasury: treasury@,
                employee_count: employee_count as int,
            }),
    {
        match check_company_name(company_name.as_str()) {
            Ok(()) => Some(VestingProgram { owner, company_name, treasury, employee_count }),
            Err(_) => None,
        }
    }

    /// Who created the program.
    pub fn owner(&self) -> (id: Identity)
        ensures
            id@ == self@.owner,
    {
        self.owner
    }

    /// The label of the program.
    pub fn company_name(&self) -> (name: &str)
        ensures
            name@ == self@.company_name,
    {
        self.company_name.as_str()
    }

    /// The pool the program pays from.
    pub fn treasury(&self) -> (id: Identity)
        ensures
            id@ == self@.treasury,
    {
        self.treasury
    }

    /// How many employee records were created under the program.
    pub fn employee_count(&self) -> (count: u64)
        ensures
            count == self@.employee_count,
    {
        self.employee_count
    }

    /// Counts one more employee record.
    pub(crate) fn count_employee(&mut self)
        requires
            old(self)@.employee_count < u64::MAX,
        ensures
            final(self)@ == (ProgramView {
                employee_count: old(self)@.employee_count + 1,
                ..old(self)@
            }),
    {
        proof {
            use_type_invariant(&*self);
        }
        self.employee_count = self.employee_count + 1;
    }
}

/// Creates the vesting program `company_name` of `owner`, paying from
/// `treasury`, with no employees yet.
///
/// The name must not be empty nor take more than [`MAX_COMPANY_NAME_LEN`]
/// bytes. A program is identified by its owner and its name
/// ([`ProgramView::key`]), and its record is stored at an address derived
/// from that pair: an owner has at most one program of a given name. This
/// function does not look the address up. The caller stores the new record
/// only where that address is still free and reports a program that already
/// exists otherwise.
pub fn create_vesting_account(owner: Identity, treasury: Identity, company_name: String) -> (result:
    Result<VestingProgram, NameError>)
    ensures
        match result {
            Ok(program) => {
                &&& valid_company_name(company_name@)
                &&& program@ == (ProgramView {
                    owner: owner@,
                    company_name: company_name@,
                    treasury: treasury@,
                    employee_count: 0,
                })
                &&& program@.key() == (owner@, company_name@)
            },
            Err(NameError::Empty) => company_name@.len() == 0,
            Err(NameError::TooLong) => company_name@.len() > 0 && name_bytes(company_name@)
                > MAX_COMPANY_NAME_LEN,
        },
{
    match check_company_name(company_name.as_str()) {
        Ok(()) => Ok(VestingProgram { owner, company_name, treasury, employee_count: 0 }),
        Err(e) => Err(e),
    }
}

} // verus!
