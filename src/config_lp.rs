use vstd::prelude::*;
use crate::error::{ProgramError, ProgramResult};
use crate::fee::Fee;

verus! {

/// Admin update of the liquidity pool's settings: each present field is
/// applied on its own, absent fields are left as they are.
#[derive(Clone, Copy, Debug, Default, PartialEq)]
pub struct ConfigLpData {
    pub min_fee: Option<Fee>,
    pub max_fee: Option<Fee>,
    pub liquidity_target: Option<u64>,
    pub treasury_cut: Option<Fee>,
}

/// An absent fee, or one of at most 100%.
pub open spec fn fee_ok(fee: Option<Fee>) -> bool {
    match fee {
        Some(f) => f.is_valid(),
        None => true,
    }
}

fn check_optional_fee(fee: &Option<Fee>) -> (r: ProgramResult)
    ensures
        r == (if fee_ok(*fee) {
            Ok(())
        } else {
            Err(ProgramError::InvalidArgument)
        }),
{
    match fee {
        Some(f) => f.check(),
        None => Ok(()),
    }
}

impl ConfigLpData {
    /// Fails with `InvalidArgument` when any fee present is above 100%.
    pub fn check_fees(&self) -> (r: ProgramResult)
        ensures
            r == (if fee_ok(self.min_fee) && fee_ok(self.max_fee) && fee_ok(self.treasury_cut) {
                Ok(())
            } else {
                Err(ProgramError::InvalidArgument)
            }),
    {
        check_optional_fee(&self.min_fee)?;
        check_optional_fee(&self.max_fee)?;
        check_optional_fee(&self.treasury_cut)
    }
}

} // verus!
