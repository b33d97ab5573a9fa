//! Draws of random scalars for the transformation steps.  Every draw goes
//! through the `rand` crate; the contracts state only what holds of every
//! outcome.

use vstd::prelude::*;

verus! {

/// Relies on `rand::random_range` over `u32`: the result of sampling an
/// inclusive range `lo..=hi` lies in that range (the call panics on an
/// empty range, which the precondition rules out).
#[verifier::external_body]
pub(crate) fn random_u32_inclusive(lo: u32, hi: u32) -> (r: u32)
    requires
        lo <= hi,
    ensures
        lo <= r <= hi,
{
    rand::random_range(lo..=hi)
}

/// Relies on `rand::random_range` over `usize`: the result of sampling an
/// inclusive range `lo..=hi` lies in that range (the call panics on an
/// empty range, which the precondition rules out).
#[verifier::external_body]
pub(crate) fn random_usize_inclusive(lo: usize, hi: usize) -> (r: usize)
    requires
        lo <= hi,
    ensures
        lo <= r <= hi,
{
    rand::random_range(lo..=hi)
}

/// Relies on `rand::random_range` over `i32`: the result of sampling an
/// inclusive range `lo..=hi` lies in that range (the call panics on an
/// empty range, which the precondition rules out).
#[verifier::external_body]
pub(crate) fn random_i32_inclusive(lo: i32, hi: i32) -> (r: i32)
    requires
        lo <= hi,
    ensures
        lo <= r <= hi,
{
    rand::random_range(lo..=hi)
}

/// Relies on `rand::random_ratio`: the result is `true` with probability
/// `numerator / denominator`; it is guaranteed `true` when the two are equal
/// and guaranteed `false` when the numerator is zero (the call panics when
/// the denominator is zero or smaller than the numerator).
#[verifier::external_body]
pub(crate) fn random_ratio(numerator: u32, denominator: u32) -> (r: bool)
    requires
        0 < denominator,
        numerator <= denominator,
    ensures
        numerator == denominator ==> r,
        numerator == 0 ==> !r,
{
    rand::random_ratio(numerator, denominator)
}

} // verus!
