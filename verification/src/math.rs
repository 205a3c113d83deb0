//! Shared fixed-point and basis-point arithmetic.
//!
//! Prices are fixed-point values with six implied decimals (1_000_000 encodes
//! 1.0 underlying per claim token) and rates are expressed in basis points
//! (1/10_000). Every multiply-then-divide runs in 128-bit width before the
//! quotient is narrowed back into a 64-bit field; the narrowing keeps the low
//! 64 bits of the quotient.

use vstd::arithmetic::div_mod::{lemma_div_by_multiple, lemma_div_is_ordered};
use vstd::arithmetic::mul::{lemma_mul_inequality, lemma_mul_upper_bound};
use vstd::prelude::*;

verus! {

/// Number of seconds in a (non-leap) year, the base period for yield accrual.
pub const SECONDS_PER_YEAR: u64 = 365 * 24 * 60 * 60;

/// Fixed-point price scale: six implied decimals.
pub const PRICE_SCALE: u64 = 1_000_000;

/// Basis-point denominator.
pub const BPS_DENOMINATOR: u64 = 10_000;

/// The low 64 bits of a non-negative quantity: what a 64-bit field keeps when
/// a wide intermediate result is narrowed into it.
pub open spec fn low64(x: int) -> int {
    x % 0x1_0000_0000_0000_0000
}

/// An order's value in underlying units: `amount` claim tokens at `price`
/// (six-decimal fixed point), de-scaled and narrowed to 64 bits.
pub open spec fn scaled_value(amount: u64, price: u64) -> int {
    low64((amount * price) / (PRICE_SCALE as int))
}

/// A basis-point portion of `amount`, rounded down and narrowed to 64 bits.
pub open spec fn bps_portion(amount: u64, bps: u16) -> int {
    low64((amount * bps) / (BPS_DENOMINATOR as int))
}

/// Narrowing is the identity on quantities that already fit in 64 bits.
pub proof fn lemma_low64_identity(x: int)
    requires
        0 <= x < 0x1_0000_0000_0000_0000,
    ensures
        low64(x) == x,
{
}

/// A basis-point portion at `bps <= BPS_DENOMINATOR` never exceeds the amount
/// it is taken from, so its narrowing changes nothing.
pub proof fn lemma_bps_portion_le(amount: u64, bps: u16)
    requires
        bps <= BPS_DENOMINATOR,
    ensures
        0 <= bps_portion(amount, bps) <= amount,
        bps_portion(amount, bps) == (amount * bps) / (BPS_DENOMINATOR as int),
{
    lemma_mul_inequality(bps as int, BPS_DENOMINATOR as int, amount as int);
    assert(amount * bps == bps * amount) by (nonlinear_arith);
    assert(amount * BPS_DENOMINATOR == BPS_DENOMINATOR * amount) by (nonlinear_arith);
    lemma_div_is_ordered(amount * bps, amount * (BPS_DENOMINATOR as int), BPS_DENOMINATOR as int);
    lemma_div_by_multiple(amount as int, BPS_DENOMINATOR as int);
    assert((amount * bps) / (BPS_DENOMINATOR as int) >= 0) by {
        assert(amount * bps >= 0) by (nonlinear_arith);
    };
    lemma_low64_identity((amount * bps) / (BPS_DENOMINATOR as int));
}

/// De-scaling is monotonic in the claim-token amount; in particular a partial
/// fill's value never exceeds the whole order's un-narrowed value.
pub proof fn lemma_scaled_value_ordered(a1: u64, a2: u64, price: u64)
    requires
        a1 <= a2,
        (a2 * price) / (PRICE_SCALE as int) < 0x1_0000_0000_0000_0000,
    ensures
        0 <= scaled_value(a1, price) <= scaled_value(a2, price),
        scaled_value(a1, price) == (a1 * price) / (PRICE_SCALE as int),
        scaled_value(a2, price) == (a2 * price) / (PRICE_SCALE as int),
{
    lemma_mul_inequality(a1 as int, a2 as int, price as int);
    lemma_div_is_ordered(a1 * price, a2 * price, PRICE_SCALE as int);
    assert(a1 * price >= 0) by (nonlinear_arith);
    assert((a1 * price) / (PRICE_SCALE as int) >= 0) by {
        lemma_div_is_ordered(0, a1 * price, PRICE_SCALE as int);
    };
    lemma_low64_identity((a1 * price) / (PRICE_SCALE as int));
    lemma_low64_identity((a2 * price) / (PRICE_SCALE as int));
}

/// Multiplies `amount` by a six-decimal fixed-point `price` and de-scales, in
/// 128-bit width, keeping the low 64 bits of the quotient.
pub fn mul_price(amount: u64, price: u64) -> (r: u64)
    ensures
        r == scaled_value(amount, price),
{
    proof {
        lemma_mul_upper_bound(amount as int, u64::MAX as int, price as int, u64::MAX as int);
    }
    let wide: u128 = (amount as u128) * (price as u128);
    let q: u128 = wide / (PRICE_SCALE as u128);
    let low: u128 = q % 0x1_0000_0000_0000_0000u128;
    low as u64
}

/// Takes `bps` basis points of `amount`, in 128-bit width, keeping the low 64
/// bits of the quotient.
pub fn mul_bps(amount: u64, bps: u16) -> (r: u64)
    ensures
        r == bps_portion(amount, bps),
{
    proof {
        lemma_mul_upper_bound(amount as int, u64::MAX as int, bps as int, u16::MAX as int);
    }
    let wide: u128 = (amount as u128) * (bps as u128);
    let q: u128 = wide / (BPS_DENOMINATOR as u128);
    let low: u128 = q % 0x1_0000_0000_0000_0000u128;
    low as u64
}

/// The part of `whole` that `claim` out of `total` shares lays claim to,
/// rounded down.
pub open spec fn proportional_share(whole: int, claim: int, total: int) -> int {
    (whole * claim) / total
}

/// A proportional share never exceeds the whole it is taken from.
pub proof fn lemma_share_le_whole(whole: u64, claim: u64, total: u64)
    requires
        0 < total,
        claim <= total,
    ensures
        0 <= proportional_share(whole as int, claim as int, total as int) <= whole,
{
    lemma_mul_inequality(claim as int, total as int, whole as int);
    assert(whole * claim == claim * whole) by (nonlinear_arith);
    assert(whole * total == total * whole) by (nonlinear_arith);
    lemma_div_is_ordered(whole * claim, whole * total, total as int);
    lemma_div_by_multiple(whole as int, total as int);
    assert(whole * claim >= 0) by (nonlinear_arith);
    lemma_div_is_ordered(0, whole * claim, total as int);
}

/// Claiming all `total` shares claims the whole exactly: the rounding error
/// of a proportional share vanishes when the share is everything.
pub proof fn lemma_whole_share(whole: u64, total: u64)
    requires
        0 < total,
    ensures
        proportional_share(whole as int, total as int, total as int) == whole,
{
    lemma_div_by_multiple(whole as int, total as int);
}

} // verus!
