use vstd::prelude::*;
use crate::error::{ProgramError, ProgramResult};

verus! {

/// Basis points in one whole (100%).
pub const BASIS_POINTS_MAX: u32 = 10_000;

/// A ratio between 0% and 100%, in basis points.
#[derive(Clone, Copy, Debug, Default, PartialEq, Eq, Structural)]
pub struct Fee {
    pub basis_points: u32,
}

impl Fee {
    /// At most 100%.
    pub open spec fn is_valid(&self) -> bool {
        self.basis_points <= BASIS_POINTS_MAX
    }

    /// The cut taken from `lamports`, rounded down.
    pub open spec fn cut_of(&self, lamports: int) -> int {
        lamports * (self.basis_points as int) / (BASIS_POINTS_MAX as int)
    }

    pub fn from_basis_points(basis_points: u32) -> (r: Fee)
        ensures
            r.basis_points == basis_points,
    {
        Fee { basis_points }
    }

    /// Fails with `InvalidArgument` when the ratio is above 100%.
    pub fn check(&self) -> (r: ProgramResult)
        ensures
            r == (if self.is_valid() {
                Ok(())
            } else {
                Err(ProgramError::InvalidArgument)
            }),
    {
        if self.basis_points <= BASIS_POINTS_MAX {
            Ok(())
        } else {
            Err(ProgramError::InvalidArgument)
        }
    }

    /// The fee's share of `lamports`, rounded down so that it never exceeds
    /// what is owed.
    pub fn apply(&self, lamports: u64) -> (r: u64)
        requires
            self.is_valid(),
        ensures
            r as int == self.cut_of(lamports as int),
            r <= lamports,
    {
        let bp = self.basis_points;
        let l = lamports;
        assert(0 <= (l as int) * (bp as int) <= (l as int) * 10_000) by (nonlinear_arith)
            requires
                bp <= 10_000,
        ;
        assert((l as int) * (bp as int) / 10_000 <= l) by (nonlinear_arith)
            requires
                0 <= (l as int) * (bp as int) <= (l as int) * 10_000,
        ;
        let wide: u128 = (lamports as u128) * (self.basis_points as u128);
        (wide / (BASIS_POINTS_MAX as u128)) as u64
    }
}

} // verus!
