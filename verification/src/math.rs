//! Basis-point arithmetic shared by the allocation model and the segment
//! builder.

use vstd::prelude::*;

verus! {

/// Number of basis points in the whole: allocations and segment boundaries
/// are expressed as integer fractions of this divisor.
pub const BASIS_POINTS_DIVISOR: u64 = 10000;

/// `floor(bps * amount / 10000)` as unbounded integers.
pub open spec fn spec_bps_mul(bps: u64, amount: u64) -> int {
    (bps * amount) / (BASIS_POINTS_DIVISOR as int)
}

/// Multiplies an amount by a basis-point fraction, rounding down, using a
/// 128-bit intermediate so the multiply cannot overflow. Returns `None` only
/// when the mathematical result does not fit in `u64`, which cannot happen
/// for `bps <= 10000`.
pub fn bps_mul(bps: u64, amount: u64) -> (r: Option<u64>)
    ensures
        spec_bps_mul(bps, amount) <= u64::MAX <==> r == Some(spec_bps_mul(bps, amount) as u64),
        spec_bps_mul(bps, amount) > u64::MAX <==> r is None,
{
    let b = bps as u128;
    let a = amount as u128;
    proof {
        assert(b * a <= (u64::MAX as u128) * (u64::MAX as u128)) by (nonlinear_arith)
            requires
                b <= u64::MAX as u128,
                a <= u64::MAX as u128,
        ;
    }
    let wide: u128 = b * a / (BASIS_POINTS_DIVISOR as u128);
    if wide <= u64::MAX as u128 {
        Some(wide as u64)
    } else {
        None
    }
}

/// With `bps` at or below the divisor the product stays at or below the
/// amount, so `bps_mul` always succeeds.
pub proof fn lemma_bps_mul_le_amount(bps: u64, amount: u64)
    requires
        bps <= BASIS_POINTS_DIVISOR,
    ensures
        0 <= spec_bps_mul(bps, amount) <= amount,
{
    let d = BASIS_POINTS_DIVISOR as int;
    vstd::arithmetic::mul::lemma_mul_inequality(bps as int, d, amount as int);
    vstd::arithmetic::div_mod::lemma_div_is_ordered(bps * amount, d * amount, d);
    vstd::arithmetic::div_mod::lemma_div_multiples_vanish(amount as int, d);
    vstd::arithmetic::div_mod::lemma_div_pos_is_pos(bps * amount, d);
    vstd::arithmetic::mul::lemma_mul_nonnegative(bps as int, amount as int);
}

/// `bps_mul` is monotone in the basis-point argument.
pub proof fn lemma_bps_mul_is_ordered(bps1: u64, bps2: u64, amount: u64)
    requires
        bps1 <= bps2,
    ensures
        spec_bps_mul(bps1, amount) <= spec_bps_mul(bps2, amount),
{
    vstd::arithmetic::mul::lemma_mul_inequality(bps1 as int, bps2 as int, amount as int);
    vstd::arithmetic::div_mod::lemma_div_is_ordered(
        bps1 * amount,
        bps2 * amount,
        BASIS_POINTS_DIVISOR as int,
    );
}

} // verus!
