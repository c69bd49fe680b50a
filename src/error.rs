use vstd::prelude::*;

verus! {

/// Domain errors of the pool's own rules.
#[derive(Clone, Copy, Debug, PartialEq, Eq, Structural)]
pub enum CommonError {
    NumberTooLow,
    CalculationFailure,
    StakeNotDelegated,
    StakeAccountNotUpdatedYet,
}

/// Failure of a guard or of an operation, as reported to the caller.
#[derive(Clone, Copy, Debug, PartialEq, Eq, Structural)]
pub enum ProgramError {
    InvalidArgument,
    InvalidAccountData,
    InvalidInstructionData,
    Custom(u32),
    Common(CommonError),
}

/// Custom error code returned when a deposit would exceed the staking cap.
pub const STAKING_CAP_REACHED: u32 = 3782;

pub type ProgramResult = Result<(), ProgramError>;

impl From<CommonError> for ProgramError {
    fn from(e: CommonError) -> (r: ProgramError) {
        ProgramError::Common(e)
    }
}

impl vstd::std_specs::convert::FromSpecImpl<CommonError> for ProgramError {
    open spec fn obeys_from_spec() -> bool {
        true
    }

    open spec fn from_spec(e: CommonError) -> ProgramError {
        ProgramError::Common(e)
    }
}

} // verus!
