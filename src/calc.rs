use vstd::prelude::*;
use crate::error::CommonError;
use vstd::arithmetic::div_mod::{lemma_div_is_ordered, lemma_div_multiples_vanish, lemma_fundamental_div_mod};

verus! {

/// `floor(amount * numerator / denominator)`, the exact quotient of a scaled amount.
pub open spec fn scaled(amount: int, numerator: int, denominator: int) -> int {
    amount * numerator / denominator
}

/// Shares owed for `value` at the pool's current size: one for one while the
/// pool is empty, otherwise rounded down.
pub open spec fn shares_for(value: int, total_value: int, total_shares: int) -> int {
    if total_value == 0 || total_shares == 0 {
        value
    } else {
        scaled(value, total_shares, total_value)
    }
}

/// Value owed for `shares` at the pool's current size, rounded down; only
/// meaningful while some shares exist.
pub open spec fn value_for(shares: int, total_value: int, total_shares: int) -> int {
    scaled(shares, total_value, total_shares)
}

proof fn lemma_wide_product_fits(a: u64, b: u64)
    ensures
        (a as int) * (b as int) <= u128::MAX,
        0 <= (a as int) * (b as int),
{
    assert((a as int) * (b as int) <= (u64::MAX as int) * (u64::MAX as int)) by (nonlinear_arith)
        requires
            a <= u64::MAX,
            b <= u64::MAX,
    ;
    assert(0 <= (a as int) * (b as int)) by (nonlinear_arith);
}

/// Outcome of a conversion whose exact result is `q`: the result when it fits
/// in 64 bits, a calculation failure otherwise.
pub open spec fn fitted(q: int) -> Result<u64, CommonError> {
    if q <= u64::MAX {
        Ok(q as u64)
    } else {
        Err(CommonError::CalculationFailure)
    }
}

/// Outcome of `shares_from_value`.
pub open spec fn shares_result(value: u64, total_value: u64, total_shares: u64) -> Result<u64, CommonError> {
    fitted(shares_for(value as int, total_value as int, total_shares as int))
}

/// Outcome of `value_from_shares`.
pub open spec fn value_result(shares: u64, total_value: u64, total_shares: u64) -> Result<u64, CommonError> {
    if total_shares == 0 {
        Err(CommonError::CalculationFailure)
    } else {
        fitted(value_for(shares as int, total_value as int, total_shares as int))
    }
}

/// `floor(amount * numerator / denominator)` through a 128-bit intermediate;
/// fails when the quotient does not fit in 64 bits.
pub fn proportional(amount: u64, numerator: u64, denominator: u64) -> (r: Result<u64, CommonError>)
    requires
        denominator > 0,
    ensures
        r == fitted(scaled(amount as int, numerator as int, denominator as int)),
{
    proof {
        lemma_wide_product_fits(amount, numerator);
    }
    let wide: u128 = (amount as u128) * (numerator as u128);
    let q: u128 = wide / (denominator as u128);
    if q > u64::MAX as u128 {
        Err(CommonError::CalculationFailure)
    } else {
        Ok(q as u64)
    }
}

/// Shares to mint for a deposit of `value` into a pool holding `total_value`
/// backed by `total_shares` shares.
pub fn shares_from_value(value: u64, total_value: u64, total_shares: u64) -> (r: Result<u64, CommonError>)
    ensures
        r == shares_result(value, total_value, total_shares),
{
    if total_value == 0 || total_shares == 0 {
        Ok(value)
    } else {
        proportional(value, total_shares, total_value)
    }
}

/// Value paid out for `shares` of a pool holding `total_value` backed by
/// `total_shares` shares; there is no price while no shares exist.
pub fn value_from_shares(shares: u64, total_value: u64, total_shares: u64) -> (r: Result<u64, CommonError>)
    ensures
        r == value_result(shares, total_value, total_shares),
{
    if total_shares == 0 {
        Err(CommonError::CalculationFailure)
    } else {
        proportional(shares, total_value, total_shares)
    }
}

/// Converting value to shares and back never pays out more than was put in:
/// both conversions round down, in the pool's favour.
pub proof fn lemma_round_trip_never_overpays(value: u64, total_value: u64, total_shares: u64)
    requires
        total_value > 0,
        total_shares > 0,
    ensures
        value_for(shares_for(value as int, total_value as int, total_shares as int), total_value as int, total_shares as int)
            <= value,
{
    let v = value as int;
    let tv = total_value as int;
    let ts = total_shares as int;
    let s = v * ts / tv;
    lemma_fundamental_div_mod(v * ts, tv);
    assert(0 <= (v * ts) % tv);
    assert(s * tv <= v * ts) by (nonlinear_arith)
        requires
            v * ts == tv * s + (v * ts) % tv,
            0 <= (v * ts) % tv,
    ;
    lemma_div_is_ordered(s * tv, v * ts, ts);
    assert(v * ts == ts * v) by (nonlinear_arith);
    lemma_div_multiples_vanish(v, ts);
}

/// Redeeming at most the whole share supply never yields more than the pool
/// holds, so the conversion of any such amount fits in 64 bits and succeeds.
pub proof fn lemma_redeemed_value_within_pool(shares: u64, total_value: u64, total_shares: u64)
    requires
        total_shares > 0,
        shares <= total_shares,
    ensures
        0 <= value_for(shares as int, total_value as int, total_shares as int) <= total_value,
        value_result(shares, total_value, total_shares) == Ok::<u64, CommonError>(
            value_for(shares as int, total_value as int, total_shares as int) as u64,
        ),
{
    let s = shares as int;
    let tv = total_value as int;
    let ts = total_shares as int;
    assert(0 <= s * tv <= ts * tv) by (nonlinear_arith)
        requires
            0 <= s <= ts,
            0 <= tv,
    ;
    lemma_div_is_ordered(s * tv, ts * tv, ts);
    lemma_div_multiples_vanish(tv, ts);
    assert(0 <= s * tv / ts) by (nonlinear_arith)
        requires
            0 <= s * tv,
            0 < ts,
    ;
}

} // verus!
