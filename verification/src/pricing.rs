//! Per-segment pricing functions and their inverses.
//!
//! Every arithmetic step is checked: overflow, underflow, division by zero
//! and out-of-range narrowing all surface as `None`, never as a wrapped
//! value. The linear inverse is solved by bisection over the monotone
//! forward function rather than by a closed form.

use vstd::arithmetic::power::pow;
use vstd::prelude::*;

use crate::math::BASIS_POINTS_DIVISOR;
use crate::segment::{CurveSegment, SegmentType};

verus! {

/// Cost of `tokens` at a constant unit price: `price * tokens`, failing when
/// the product leaves `u64`.
pub open spec fn spec_constant_price(price: u64, tokens: u64) -> Option<u64> {
    if price * tokens <= u64::MAX {
        Some((price * tokens) as u64)
    } else {
        None
    }
}

/// Cost of `tokens` on a line with `slope` and `intercept` in basis-point
/// fixed point, integrated from `start_supply`:
/// `((start_supply * slope + intercept) + tokens * slope / 2) * tokens / 10000`,
/// failing when an intermediate leaves 128 bits or the result leaves `u64`.
pub open spec fn spec_linear_price(
    slope: u64,
    intercept: u64,
    tokens: u64,
    start_supply: u64,
) -> Option<u64> {
    let accum = start_supply * slope + intercept + (tokens * slope) / 2;
    if accum > u128::MAX {
        None
    } else if accum * tokens > u128::MAX {
        None
    } else if (accum * tokens) / (BASIS_POINTS_DIVISOR as int) > u64::MAX {
        None
    } else {
        Some(((accum * tokens) / (BASIS_POINTS_DIVISOR as int)) as u64)
    }
}

/// Cost of `tokens` at the fixed unit price `base^exponent / scale`:
/// `base^exponent * tokens / scale`, failing when the power leaves `u64`,
/// when `scale` is zero, or when the result leaves `u64`.
pub open spec fn spec_exponential_price(
    base: u64,
    exponent: u32,
    scale: u64,
    tokens: u64,
) -> Option<u64> {
    let p = pow(base as int, exponent as nat);
    if p > u64::MAX {
        None
    } else if scale == 0 {
        None
    } else if (p * tokens) / (scale as int) > u64::MAX {
        None
    } else {
        Some(((p * tokens) / (scale as int)) as u64)
    }
}

/// The cost of `tokens` under one segment's pricing function, integrated
/// from `start_supply`.
pub open spec fn spec_segment_price(seg: CurveSegment, start_supply: u64, tokens: u64) -> Option<
    u64,
> {
    match seg.segment_type {
        SegmentType::Constant(price) => spec_constant_price(price, tokens),
        SegmentType::Linear(slope, intercept) => spec_linear_price(
            slope,
            intercept,
            tokens,
            start_supply,
        ),
        SegmentType::Exponential(base, exponent, scale) => spec_exponential_price(
            base,
            exponent,
            scale,
            tokens,
        ),
    }
}

/// Token count obtainable for `sol` at the fixed exponential unit price:
/// `sol * scale / base^exponent`, with the same failure conditions as the
/// forward function.
pub open spec fn spec_tokens_for_exponential(
    base: u64,
    exponent: u32,
    scale: u64,
    sol: u64,
) -> Option<u64> {
    let p = pow(base as int, exponent as nat);
    if p > u64::MAX {
        None
    } else if p == 0 {
        None
    } else if (sol * scale) / p > u64::MAX {
        None
    } else {
        Some(((sol * scale) / p) as u64)
    }
}

/// A cost is affordable when it was computable and fits the budget.
pub open spec fn spec_affordable(cost: Option<u64>, budget: u64) -> bool {
    match cost {
        Some(c) => c <= budget,
        None => false,
    }
}

/// Cost of a partial take of `t` tokens of a linear segment, anchored at the
/// current curve position: a buy consumes downward, covering
/// `[anchor - t, anchor)`, a sell covers `[anchor, anchor + t)` upward.
pub open spec fn spec_linear_partial_cost(
    slope: u64,
    intercept: u64,
    anchor: u64,
    is_buy: bool,
    t: u64,
) -> Option<u64> {
    if is_buy {
        if t <= anchor {
            spec_linear_price(slope, intercept, t, (anchor - t) as u64)
        } else {
            None
        }
    } else {
        spec_linear_price(slope, intercept, t, anchor)
    }
}

/// A power of a machine integer is never negative.
pub proof fn lemma_pow_nonneg(base: u64, e: nat)
    ensures
        pow(base as int, e) >= 0,
    decreases e,
{
    if e == 0 {
        vstd::arithmetic::power::lemma_pow0(base as int);
    } else {
        lemma_pow_nonneg(base, (e - 1) as nat);
        assert(pow(base as int, e) == base * pow(base as int, (e - 1) as nat)) by {
            vstd::arithmetic::power::lemma_pow1(base as int);
            vstd::arithmetic::power::lemma_pow_adds(base as int, 1nat, (e - 1) as nat);
        }
        vstd::arithmetic::mul::lemma_mul_nonnegative(
            base as int,
            pow(base as int, (e - 1) as nat),
        );
    }
}

/// The product of two `u64` values, in 128-bit width.
fn mul_wide(a: u64, b: u64) -> (r: u128)
    ensures
        r == a * b,
{
    proof {
        assert((a as u128) * (b as u128) <= (u64::MAX as u128) * (u64::MAX as u128))
            by (nonlinear_arith)
            requires
                a <= u64::MAX,
                b <= u64::MAX,
        ;
    }
    (a as u128) * (b as u128)
}

/// `base^exponent`, or `None` when the power leaves `u64`.
pub fn checked_pow_u64(base: u64, exponent: u32) -> (r: Option<u64>)
    ensures
        pow(base as int, exponent as nat) >= 0,
        pow(base as int, exponent as nat) <= u64::MAX ==> r == Some(
            pow(base as int, exponent as nat) as u64,
        ),
        pow(base as int, exponent as nat) > u64::MAX ==> r is None,
{
    proof {
        vstd::arithmetic::power::lemma_pow0(base as int);
    }
    let mut acc: u64 = 1;
    let mut k: u32 = 0;
    while k < exponent
        invariant
            k <= exponent,
            acc == pow(base as int, k as nat),
        decreases exponent - k,
    {
        proof {
            assert(pow(base as int, (k + 1) as nat) == base * pow(base as int, k as nat)) by {
                vstd::arithmetic::power::lemma_pow1(base as int);
                vstd::arithmetic::power::lemma_pow_adds(base as int, 1nat, k as nat);
            }
        }
        match acc.checked_mul(base) {
            Some(next) => {
                proof {
                    vstd::arithmetic::mul::lemma_mul_is_commutative(acc as int, base as int);
                }
                acc = next;
            },
            None => {
                proof {
                    vstd::arithmetic::mul::lemma_mul_is_commutative(acc as int, base as int);
                    assert(base >= 1) by {
                        vstd::arithmetic::mul::lemma_mul_by_zero_is_zero(acc as int);
                    }
                    vstd::arithmetic::power::lemma_pow_increases(
                        base as nat,
                        (k + 1) as nat,
                        exponent as nat,
                    );
                }
                return None;
            },
        }
        k = k + 1;
    }
    Some(acc)
}

/// Forward linear cost; every step checked, intermediates in 128-bit width.
pub fn calculate_linear_price(slope: u64, intercept: u64, tokens: u64, start_supply: u64) -> (r:
    Option<u64>)
    ensures
        r == spec_linear_price(slope, intercept, tokens, start_supply),
{
    let part2: u128 = mul_wide(start_supply, slope);
    proof {
        assert(part2 <= (u64::MAX as u128) * (u64::MAX as u128)) by (nonlinear_arith)
            requires
                part2 == start_supply * slope,
                start_supply <= u64::MAX,
                slope <= u64::MAX,
        ;
    }
    let part3: u128 = part2 + intercept as u128;
    let part4: u128 = mul_wide(tokens, slope);
    let part5: u128 = part4 / 2;
    let part6: u128 = match part3.checked_add(part5) {
        Some(v) => v,
        None => {
            return None;
        },
    };
    let part7: u128 = match part6.checked_mul(tokens as u128) {
        Some(v) => v,
        None => {
            return None;
        },
    };
    let result: u128 = part7 / (BASIS_POINTS_DIVISOR as u128);
    if result > u64::MAX as u128 {
        None
    } else {
        Some(result as u64)
    }
}

/// Forward exponential cost; the power is checked, the product is exact in
/// 128-bit width, and the scaled result must fit `u64`.
pub fn calculate_exponential_price(base: u64, exponent: u32, scale: u64, tokens: u64) -> (r: Option<
    u64,
>)
    ensures
        r == spec_exponential_price(base, exponent, scale, tokens),
{
    let powed = match checked_pow_u64(base, exponent) {
        Some(p) => p,
        None => {
            return None;
        },
    };
    if scale == 0 {
        return None;
    }
    let tokens_price: u128 = mul_wide(powed, tokens);
    let scaled: u128 = tokens_price / (scale as u128);
    if scaled > u64::MAX as u128 {
        None
    } else {
        Some(scaled as u64)
    }
}

/// The cost of taking `tokens` from a segment, integrated from
/// `start_supply`, under the segment's pricing function.
pub fn calculate_segment_price(segment: &CurveSegment, start_supply: u64, tokens: u64) -> (r:
    Option<u64>)
    ensures
        r == spec_segment_price(*segment, start_supply, tokens),
{
    match segment.segment_type {
        SegmentType::Constant(price) => price.checked_mul(tokens),
        SegmentType::Linear(slope, intercept) => calculate_linear_price(
            slope,
            intercept,
            tokens,
            start_supply,
        ),
        SegmentType::Exponential(base, exponent, scale) => calculate_exponential_price(
            base,
            exponent,
            scale,
            tokens,
        ),
    }
}

/// Cost of a partial linear take of `t` tokens, anchored as in
/// [`spec_linear_partial_cost`].
fn linear_partial_cost(slope: u64, intercept: u64, anchor: u64, is_buy: bool, t: u64) -> (r: Option<
    u64,
>)
    requires
        is_buy ==> t <= anchor,
    ensures
        r == spec_linear_partial_cost(slope, intercept, anchor, is_buy, t),
{
    if is_buy {
        calculate_linear_price(slope, intercept, t, anchor - t)
    } else {
        calculate_linear_price(slope, intercept, t, anchor)
    }
}

/// Whether a partial linear take of `t` tokens is affordable within `budget`.
fn linear_affordable(slope: u64, intercept: u64, anchor: u64, is_buy: bool, t: u64, budget: u64) -> (
    r: bool)
    requires
        is_buy ==> t <= anchor,
    ensures
        r == spec_affordable(
            spec_linear_partial_cost(slope, intercept, anchor, is_buy, t),
            budget,
        ),
{
    match linear_partial_cost(slope, intercept, anchor, is_buy, t) {
        Some(c) => c <= budget,
        None => false,
    }
}

/// The bisection itself, as a mathematical function: narrows `[lo, hi)`
/// until the affordable point `lo` and the unaffordable point `hi` are
/// adjacent.
pub open spec fn spec_linear_bisect(
    slope: u64,
    intercept: u64,
    anchor: u64,
    is_buy: bool,
    budget: u64,
    lo: u64,
    hi: u64,
) -> u64
    decreases hi - lo,
{
    if hi - lo <= 1 {
        lo
    } else {
        let mid = (lo + (hi - lo) / 2) as u64;
        if spec_affordable(spec_linear_partial_cost(slope, intercept, anchor, is_buy, mid), budget) {
            spec_linear_bisect(slope, intercept, anchor, is_buy, budget, mid, hi)
        } else {
            spec_linear_bisect(slope, intercept, anchor, is_buy, budget, lo, mid)
        }
    }
}

/// The take of a linear segment: the whole capacity when affordable,
/// otherwise the bisection's boundary point.
pub open spec fn spec_linear_take(
    slope: u64,
    intercept: u64,
    anchor: u64,
    is_buy: bool,
    budget: u64,
    capacity: u64,
) -> u64 {
    if capacity == 0 {
        0
    } else if spec_affordable(
        spec_linear_partial_cost(slope, intercept, anchor, is_buy, capacity),
        budget,
    ) {
        capacity
    } else {
        spec_linear_bisect(slope, intercept, anchor, is_buy, budget, 0, capacity)
    }
}

/// Largest affordable take of a linear segment, found by bisection over the
/// forward cost: the result is affordable and lies on the affordability
/// boundary (it is the whole capacity, or taking one more token is not
/// affordable).
pub fn calculate_tokens_for_linear(
    slope: u64,
    intercept: u64,
    anchor: u64,
    capacity: u64,
    sol_amount: u64,
    is_buy: bool,
) -> (r: u64)
    requires
        is_buy ==> capacity <= anchor,
    ensures
        r == spec_linear_take(slope, intercept, anchor, is_buy, sol_amount, capacity),
        r <= capacity,
        spec_affordable(spec_linear_partial_cost(slope, intercept, anchor, is_buy, r), sol_amount),
        r == capacity || !spec_affordable(
            spec_linear_partial_cost(slope, intercept, anchor, is_buy, (r + 1) as u64),
            sol_amount,
        ),
{
    proof {
        lemma_linear_zero_take_is_free(slope, intercept, anchor, is_buy);
    }
    if capacity == 0 {
        return 0;
    }
    if linear_affordable(slope, intercept, anchor, is_buy, capacity, sol_amount) {
        return capacity;
    }
    let mut lo: u64 = 0;
    let mut hi: u64 = capacity;
    while hi - lo > 1
        invariant
            lo < hi <= capacity,
            is_buy ==> capacity <= anchor,
            spec_affordable(
                spec_linear_partial_cost(slope, intercept, anchor, is_buy, lo),
                sol_amount,
            ),
            !spec_affordable(
                spec_linear_partial_cost(slope, intercept, anchor, is_buy, hi),
                sol_amount,
            ),
            spec_linear_bisect(slope, intercept, anchor, is_buy, sol_amount, lo, hi)
                == spec_linear_bisect(slope, intercept, anchor, is_buy, sol_amount, 0, capacity),
        decreases hi - lo,
    {
        let mid = lo + (hi - lo) / 2;
        if linear_affordable(slope, intercept, anchor, is_buy, mid, sol_amount) {
            lo = mid;
        } else {
            hi = mid;
        }
    }
    lo
}

/// Taking zero tokens of a linear segment always computes and costs nothing.
proof fn lemma_linear_zero_take_is_free(slope: u64, intercept: u64, anchor: u64, is_buy: bool)
    ensures
        spec_linear_partial_cost(slope, intercept, anchor, is_buy, 0) == Some(0u64),
{
    let accum = anchor * slope + intercept + (0 * slope) / 2;
    assert(anchor * slope <= (u64::MAX as int) * (u64::MAX as int)) by (nonlinear_arith)
        requires
            anchor <= u64::MAX,
            slope <= u64::MAX,
    ;
    assert(accum * 0 == 0);
    assert((0int) / (BASIS_POINTS_DIVISOR as int) == 0);
}

} // verus!
