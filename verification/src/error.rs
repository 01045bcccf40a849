use vstd::prelude::*;

verus! {

/// Failures that belong to the escrow protocol itself.
#[derive(Debug, Copy, Clone, PartialEq, Eq, Structural)]
pub enum EscrowError {
    /// The instruction payload is malformed or carries an unknown tag.
    InvalidInstruction,
    /// The escrow record account is not funded enough to be exempt from rent.
    NotRentExempt,
}

impl EscrowError {
    /// The number under which the failure is reported as a custom program error.
    pub open spec fn spec_code(self) -> u32 {
        match self {
            EscrowError::InvalidInstruction => 0,
            EscrowError::NotRentExempt => 1,
        }
    }

    /// The number under which the failure is reported as a custom program error.
    pub fn code(self) -> (c: u32)
        ensures
            c == self.spec_code(),
    {
        match self {
            EscrowError::InvalidInstruction => 0,
            EscrowError::NotRentExempt => 1,
        }
    }
}

/// Reasons for which an invocation of the program is aborted.
#[derive(Debug, Copy, Clone, PartialEq, Eq, Structural)]
pub enum ProgramError {
    /// A failure defined by the program, identified by its number.
    Custom(u32),
    /// An argument handed to the program cannot be used.
    InvalidArgument,
    /// The contents of an account do not decode.
    InvalidAccountData,
    /// An account is not the program, or not owned by the program, that was expected.
    IncorrectProgramId,
    /// An account that had to sign the request did not.
    MissingRequiredSignature,
    /// The account already holds a live record.
    AccountAlreadyInitialized,
    /// The request lists fewer accounts than the instruction consumes.
    NotEnoughAccountKeys,
    /// No program address can be derived from the seeds.
    InvalidSeeds,
}

impl From<EscrowError> for ProgramError {
    fn from(e: EscrowError) -> (r: ProgramError) {
        ProgramError::Custom(e.code())
    }
}

impl vstd::std_specs::convert::FromSpecImpl<EscrowError> for ProgramError {
    open spec fn obeys_from_spec() -> bool {
        true
    }

    open spec fn from_spec(e: EscrowError) -> ProgramError {
        ProgramError::Custom(e.spec_code())
    }
}

} // verus!
