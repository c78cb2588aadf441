//! Laws of the segmented engine: reserve conservation across whole trade
//! sequences, and monotonicity of the buy price.

use vstd::prelude::*;

use crate::curve::{spec_add_opt, spec_buy_price, spec_sell_price, BondingCurve};
use crate::pricing::spec_segment_price;
use crate::segment::{CurveSegment, SegmentType};

verus! {

/// One successful trade, as reported by `apply_buy` or `apply_sell`.
#[derive(Clone, Copy, Debug, PartialEq, Eq, Structural)]
pub struct TradeRecord {
    pub is_buy: bool,
    pub token_amount: u64,
    pub sol_amount: u64,
}

/// How one successful trade moves the reserve counters, exactly as the
/// ensures of `apply_buy` and `apply_sell` report it: a buy takes tokens
/// out and puts SOL in, a sell the reverse, and nothing else changes.
pub open spec fn spec_trade_step(a: BondingCurve, t: TradeRecord, b: BondingCurve) -> bool {
    if t.is_buy {
        &&& t.token_amount <= a.real_token_reserves
        &&& a.real_sol_reserves + t.sol_amount <= u64::MAX
        &&& b == (BondingCurve {
            real_token_reserves: (a.real_token_reserves - t.token_amount) as u64,
            real_sol_reserves: (a.real_sol_reserves + t.sol_amount) as u64,
            ..a
        })
    } else {
        &&& a.real_token_reserves + t.token_amount <= a.supply_allocation.bonding_supply
        &&& t.sol_amount <= a.real_sol_reserves
        &&& b == (BondingCurve {
            real_token_reserves: (a.real_token_reserves + t.token_amount) as u64,
            real_sol_reserves: (a.real_sol_reserves - t.sol_amount) as u64,
            ..a
        })
    }
}

/// A chain of successful trades from `init` to `fin`.
pub open spec fn spec_trade_chain(init: BondingCurve, trades: Seq<TradeRecord>, fin: BondingCurve) -> bool
    decreases trades.len(),
{
    if trades.len() == 0 {
        fin == init
    } else {
        exists|mid: BondingCurve|
            #[trigger] spec_trade_step(init, trades.first(), mid) && spec_trade_chain(
                mid,
                trades.drop_first(),
                fin,
            )
    }
}

/// Net tokens that left the curve over a trade sequence: tokens bought out
/// minus tokens sold back.
pub open spec fn spec_net_tokens_out(trades: Seq<TradeRecord>) -> int
    decreases trades.len(),
{
    if trades.len() == 0 {
        0
    } else {
        (if trades.first().is_buy {
            trades.first().token_amount as int
        } else {
            -(trades.first().token_amount as int)
        }) + spec_net_tokens_out(trades.drop_first())
    }
}

/// Net SOL that entered the curve over a trade sequence: SOL paid in by
/// buys minus SOL paid out by sells.
pub open spec fn spec_net_sol_in(trades: Seq<TradeRecord>) -> int
    decreases trades.len(),
{
    if trades.len() == 0 {
        0
    } else {
        (if trades.first().is_buy {
            trades.first().sol_amount as int
        } else {
            -(trades.first().sol_amount as int)
        }) + spec_net_sol_in(trades.drop_first())
    }
}

/// Reserve conservation: after any chain of successful buys and sells, the
/// token reserves moved by exactly the net tokens that left, the SOL
/// reserves by exactly the net SOL that entered, and the supply buckets did
/// not move at all. In particular, a curve that started with its whole
/// tradable bucket keeps `real_token_reserves + net tokens out` equal to
/// that bucket.
pub proof fn lemma_reserve_conservation(
    init: BondingCurve,
    trades: Seq<TradeRecord>,
    fin: BondingCurve,
)
    requires
        spec_trade_chain(init, trades, fin),
    ensures
        fin.real_token_reserves == init.real_token_reserves - spec_net_tokens_out(trades),
        fin.real_sol_reserves == init.real_sol_reserves + spec_net_sol_in(trades),
        fin.supply_allocation == init.supply_allocation,
        init.real_token_reserves == init.supply_allocation.bonding_supply
            ==> fin.real_token_reserves + spec_net_tokens_out(trades)
            == fin.supply_allocation.bonding_supply,
    decreases trades.len(),
{
    if trades.len() > 0 {
        let mid = choose|mid: BondingCurve|
            #[trigger] spec_trade_step(init, trades.first(), mid) && spec_trade_chain(
                mid,
                trades.drop_first(),
                fin,
            );
        lemma_reserve_conservation(mid, trades.drop_first(), fin);
    }
}

/// Linear slopes must be even for the buy price to be monotone: with an odd
/// slope the fixed-point halving inside the linear formula floors away mass
/// proportional to the take, which can make a longer take cheaper.
pub open spec fn spec_even_linear_slopes(segs: Seq<CurveSegment>) -> bool {
    forall|i: int|
        0 <= i < segs.len() ==> match (#[trigger] segs[i]).segment_type {
            SegmentType::Linear(slope, intercept) => slope % 2 == 0,
            _ => true,
        }
}

/// One segment's price is monotone in the take, for takes ending at the
/// same position.
proof fn lemma_piece_monotone(seg: CurveSegment, p: u64, k1: u64, k2: u64)
    requires
        k1 <= k2,
        seg.start_supply < p,
        k2 <= p - seg.start_supply,
        match seg.segment_type {
            SegmentType::Linear(slope, intercept) => slope % 2 == 0,
            _ => true,
        },
        spec_segment_price(seg, (p - k2) as u64, k2) is Some,
    ensures
        spec_segment_price(seg, (p - k1) as u64, k1) is Some,
        spec_segment_price(seg, (p - k1) as u64, k1)->0 <= spec_segment_price(
            seg,
            (p - k2) as u64,
            k2,
        )->0,
{
    match seg.segment_type {
        SegmentType::Constant(price) => {
            vstd::arithmetic::mul::lemma_mul_inequality(k1 as int, k2 as int, price as int);
            vstd::arithmetic::mul::lemma_mul_is_commutative(price as int, k1 as int);
            vstd::arithmetic::mul::lemma_mul_is_commutative(price as int, k2 as int);
            vstd::arithmetic::mul::lemma_mul_nonnegative(price as int, k1 as int);
        },
        SegmentType::Exponential(base, exponent, scale) => {
            let pw = vstd::arithmetic::power::pow(base as int, exponent as nat);
            crate::pricing::lemma_pow_nonneg(base, exponent as nat);
            vstd::arithmetic::mul::lemma_mul_inequality(k1 as int, k2 as int, pw);
            vstd::arithmetic::mul::lemma_mul_is_commutative(pw, k1 as int);
            vstd::arithmetic::mul::lemma_mul_is_commutative(pw, k2 as int);
            vstd::arithmetic::div_mod::lemma_div_is_ordered(pw * k1, pw * k2, scale as int);
            vstd::arithmetic::mul::lemma_mul_nonnegative(pw, k1 as int);
            vstd::arithmetic::div_mod::lemma_div_pos_is_pos(pw * k1, scale as int);
        },
        SegmentType::Linear(slope, intercept) => {
            let m = slope as int;
            let ii = intercept as int;
            let h = m / 2;
            let x1 = p - k1;
            let x2 = p - k2;
            assert(h + h == m) by {
                vstd::arithmetic::div_mod::lemma_fundamental_div_mod(m, 2);
            }
            // with an even slope the inner halving is exact
            assert((k1 * m) / 2 == k1 * h && (k2 * m) / 2 == k2 * h) by (nonlinear_arith)
                requires
                    h + h == m,
                    k1 >= 0,
                    k2 >= 0,
            ;
            let big_a = p * m + ii;
            let accum1 = x1 * m + ii + k1 * h;
            let accum2 = x2 * m + ii + k2 * h;
            let big1 = accum1 * k1;
            let big2 = accum2 * k2;
            assert(accum1 == big_a - k1 * h && accum2 == big_a - k2 * h) by (nonlinear_arith)
                requires
                    big_a == p * m + ii,
                    accum1 == x1 * m + ii + k1 * h,
                    accum2 == x2 * m + ii + k2 * h,
                    x1 == p - k1,
                    x2 == p - k2,
                    h + h == m,
            ;
            assert((k1 + k2) * h <= p * m) by (nonlinear_arith)
                requires
                    h + h == m,
                    0 <= h,
                    0 <= k1 <= p,
                    0 <= k2 <= p,
            ;
            assert((k1 + k2) * h <= big_a) by (nonlinear_arith)
                requires
                    big_a == p * m + ii,
                    (k1 + k2) * h <= p * m,
                    0 <= ii,
            ;
            assert(accum1 <= big_a) by (nonlinear_arith)
                requires
                    accum1 == big_a - k1 * h,
                    0 <= k1,
                    0 <= h,
            ;
            assert(p * m <= (u64::MAX as int) * (u64::MAX as int)) by (nonlinear_arith)
                requires
                    0 <= p <= u64::MAX,
                    0 <= m <= u64::MAX,
            ;
            assert(accum1 <= u128::MAX);
            assert(0 <= big1 && big1 <= big2) by (nonlinear_arith)
                requires
                    big1 == accum1 * k1,
                    big2 == accum2 * k2,
                    accum1 == big_a - k1 * h,
                    accum2 == big_a - k2 * h,
                    (k1 + k2) * h <= big_a,
                    0 <= k1 <= k2,
                    0 <= h,
            ;
            vstd::arithmetic::div_mod::lemma_div_is_ordered(
                big1,
                big2,
                crate::math::BASIS_POINTS_DIVISOR as int,
            );
            vstd::arithmetic::div_mod::lemma_div_pos_is_pos(
                big1,
                crate::math::BASIS_POINTS_DIVISOR as int,
            );
        },
    }
}

/// Price monotonicity: for a fixed position, the cost of buying more tokens
/// is never lower, and whenever the larger request is priceable so is the
/// smaller one. Stated for schedules whose linear segments have even
/// slopes; with an odd slope the floored fixed-point halving breaks
/// monotonicity.
pub proof fn lemma_buy_price_monotonic(segs: Seq<CurveSegment>, p: u64, t1: u64, t2: u64)
    requires
        t1 <= t2,
        spec_even_linear_slopes(segs),
        spec_buy_price(segs, p, t2) is Some,
    ensures
        spec_buy_price(segs, p, t1) is Some,
        spec_buy_price(segs, p, t1)->0 <= spec_buy_price(segs, p, t2)->0,
    decreases segs.len(),
{
    if t1 == 0 || segs.len() == 0 {
    } else {
        let seg = segs.last();
        let dl = segs.drop_last();
        assert(spec_even_linear_slopes(dl)) by {
            assert(forall|i: int| 0 <= i < dl.len() ==> dl[i] == segs[i]);
        }
        if p <= seg.start_supply {
            lemma_buy_price_monotonic(dl, p, t1, t2);
        } else {
            let avail = (p - seg.start_supply) as u64;
            let take1 = if t1 <= avail {
                t1
            } else {
                avail
            };
            let take2 = if t2 <= avail {
                t2
            } else {
                avail
            };
            let piece2 = spec_segment_price(seg, (p - take2) as u64, take2);
            let rest2 = spec_buy_price(dl, (p - take2) as u64, (t2 - take2) as u64);
            assert(piece2 is Some && rest2 is Some);
            lemma_piece_monotone(seg, p, take1, take2);
            let piece1 = spec_segment_price(seg, (p - take1) as u64, take1);
            if t1 <= avail {
                assert(spec_buy_price(dl, (p - take1) as u64, (t1 - take1) as u64) == Some(0u64));
                assert(spec_buy_price(segs, p, t1) == Some(piece1->0));
                assert(piece1->0 <= piece2->0);
                assert(piece2->0 <= spec_buy_price(segs, p, t2)->0);
            } else {
                lemma_buy_price_monotonic(
                    dl,
                    (p - avail) as u64,
                    (t1 - avail) as u64,
                    (t2 - avail) as u64,
                );
                let rest1 = spec_buy_price(dl, (p - take1) as u64, (t1 - take1) as u64);
                assert(rest1 is Some && rest1->0 <= rest2->0);
                assert(spec_buy_price(segs, p, t1) == Some(
                    ((piece1->0 + rest1->0) as u64),
                ));
            }
        }
    }
}

/// One boundary never comes after a later one: with adjacent, ordered
/// segments, an earlier segment's end is at or below a later segment's
/// start.
proof fn lemma_boundary_le(segs: Seq<CurveSegment>, i: int, j: int)
    requires
        crate::segment::spec_segments_adjacent(segs),
        crate::segment::spec_segments_ordered(segs),
        0 <= i < j < segs.len(),
    ensures
        segs[i].end_supply <= segs[j].start_supply,
    decreases j - i,
{
    if j == i + 1 {
    } else {
        lemma_boundary_le(segs, i + 1, j);
    }
}

/// A sell at or above the start of the last segment only ever touches that
/// segment.
#[verifier::rlimit(100)]
proof fn lemma_sell_only_last(segs: Seq<CurveSegment>, q: u64, t: u64)
    requires
        crate::segment::spec_segments_adjacent(segs),
        crate::segment::spec_segments_ordered(segs),
        segs.len() >= 1,
        q >= segs.last().start_supply,
    ensures
        spec_sell_price(segs, q, t) == spec_sell_price(segs.skip(segs.len() - 1), q, t),
    decreases segs.len(),
{
    if segs.len() == 1 {
        assert(segs.skip(0) =~= segs);
    } else {
        let df = segs.drop_first();
        lemma_boundary_le(segs, 0, segs.len() - 1);
        assert(segs.first().end_supply <= q);
        assert(df.last() == segs.last());
        assert(forall|i: int| 0 <= i < df.len() ==> df[i] == segs[i + 1]);
        lemma_sell_only_last(df, q, t);
        assert(df.skip(df.len() - 1) =~= segs.skip(segs.len() - 1));
    }
}

/// A sell whose whole range lies below the last segment never touches that
/// segment.
#[verifier::rlimit(100)]
proof fn lemma_sell_ignores_top(segs: Seq<CurveSegment>, q: u64, t: u64)
    requires
        crate::segment::spec_segments_adjacent(segs),
        crate::segment::spec_segments_ordered(segs),
        segs.len() >= 1,
        q >= segs.first().start_supply,
        q + t <= segs.last().start_supply,
    ensures
        spec_sell_price(segs, q, t) == spec_sell_price(segs.drop_last(), q, t),
    decreases segs.len(),
{
    if t == 0 {
    } else if segs.len() == 1 {
        assert(t == 0);
    } else {
        let seg = segs.first();
        let df = segs.drop_first();
        let dl = segs.drop_last();
        assert(dl.first() == seg);
        assert(df.last() == segs.last());
        assert(forall|i: int| 0 <= i < df.len() ==> df[i] == segs[i + 1]);
        assert(forall|i: int| 0 <= i < dl.len() ==> dl[i] == segs[i]);
        if seg.end_supply <= q {
            assert(df.drop_last() =~= dl.drop_first());
            lemma_sell_ignores_top(df, q, t);
            assert(spec_sell_price(segs, q, t) == spec_sell_price(df, q, t));
            assert(spec_sell_price(dl, q, t) == spec_sell_price(dl.drop_first(), q, t));
        } else {
            let avail = (seg.end_supply - q) as u64;
            lemma_boundary_le(segs, 0, segs.len() - 1);
            let piece = spec_segment_price(seg, q, if t <= avail {
                t
            } else {
                avail
            });
            if t <= avail {
                assert(spec_sell_price(df, (q + t) as u64, 0u64) == Some(0u64));
                assert(spec_sell_price(dl.drop_first(), (q + t) as u64, 0u64) == Some(0u64));
                assert(spec_sell_price(segs, q, t) == (match piece {
                    None => None::<u64>,
                    Some(c) => spec_add_opt(c, spec_sell_price(df, (q + t) as u64, 0u64)),
                }));
                assert(spec_sell_price(dl, q, t) == (match piece {
                    None => None::<u64>,
                    Some(c) => spec_add_opt(
                        c,
                        spec_sell_price(dl.drop_first(), (q + t) as u64, 0u64),
                    ),
                }));
            } else {
                assert(df.drop_last() =~= dl.drop_first());
                lemma_sell_ignores_top(df, seg.end_supply, (t - avail) as u64);
                assert(spec_sell_price(segs, q, t) == (match piece {
                    None => None::<u64>,
                    Some(c) => spec_add_opt(
                        c,
                        spec_sell_price(df, seg.end_supply, (t - avail) as u64),
                    ),
                }));
                assert(spec_sell_price(dl, q, t) == (match piece {
                    None => None::<u64>,
                    Some(c) => spec_add_opt(
                        c,
                        spec_sell_price(dl.drop_first(), seg.end_supply, (t - avail) as u64),
                    ),
                }));
            }
        }
    }
}

/// A sell that crosses into the last segment splits into a sell over the
/// lower segments up to the last segment's start, plus the last segment's
/// own piece.
#[verifier::rlimit(100)]
proof fn lemma_sell_split_last(segs: Seq<CurveSegment>, q: u64, t: u64)
    requires
        crate::segment::spec_segments_adjacent(segs),
        crate::segment::spec_segments_ordered(segs),
        segs.len() >= 1,
        q >= segs.first().start_supply,
        q < segs.last().start_supply,
        q + t <= segs.last().end_supply,
        q + t > segs.last().start_supply,
    ensures
        spec_sell_price(segs, q, t) == (match spec_sell_price(
            segs.drop_last(),
            q,
            (segs.last().start_supply - q) as u64,
        ) {
            None => None::<u64>,
            Some(low) => spec_add_opt(
                low,
                spec_segment_price(
                    segs.last(),
                    segs.last().start_supply,
                    (q + t - segs.last().start_supply) as u64,
                ),
            ),
        }),
    decreases segs.len(),
{
    let last = segs.last();
    let t_low = (last.start_supply - q) as u64;
    let t_high = (q + t - last.start_supply) as u64;
    if segs.len() == 1 {
        assert(false);
    } else {
        let seg = segs.first();
        let df = segs.drop_first();
        let dl = segs.drop_last();
        assert(dl.first() == seg);
        assert(df.last() == last);
        assert(forall|i: int| 0 <= i < df.len() ==> df[i] == segs[i + 1]);
        assert(forall|i: int| 0 <= i < dl.len() ==> dl[i] == segs[i]);
        assert(df.drop_last() =~= dl.drop_first());
        if seg.end_supply <= q {
            lemma_sell_split_last(df, q, t);
        } else {
            let avail = (seg.end_supply - q) as u64;
            lemma_boundary_le(segs, 0, segs.len() - 1);
            assert(avail <= t_low);
            assert(t_low < t);
            let piece_f = spec_segment_price(seg, q, avail);
            if seg.end_supply == last.start_supply {
                assert(t_low == avail);
                match piece_f {
                    None => {
                    },
                    Some(cf) => {
                        lemma_sell_only_last(df, seg.end_supply, (t - avail) as u64);
                        let one = df.skip(df.len() - 1);
                        assert(one.len() == 1 && one.first() == last);
                        assert(last.start_supply < last.end_supply);
                        assert(one.drop_first() =~= Seq::<CurveSegment>::empty());
                        assert(spec_sell_price(
                            one.drop_first(),
                            (last.start_supply + t_high) as u64,
                            0u64,
                        ) == Some(0u64));
                        assert(spec_sell_price(dl, q, t_low) == spec_add_opt(
                            cf,
                            spec_sell_price(dl.drop_first(), seg.end_supply, 0u64),
                        ));
                    },
                }
            } else {
                lemma_sell_split_last(df, seg.end_supply, (t - avail) as u64);
            }
        }
    }
}

/// Symmetry of the walks: selling `t` tokens upward from `q` prices exactly
/// the same range, piece for piece, as buying `t` tokens downward from
/// `q + t`.
#[verifier::rlimit(100)]
pub proof fn lemma_buy_sell_symmetry(segs: Seq<CurveSegment>, q: u64, t: u64)
    requires
        crate::segment::spec_segments_adjacent(segs),
        crate::segment::spec_segments_ordered(segs),
        segs.len() >= 1 ==> q >= segs.first().start_supply && q + t <= segs.last().end_supply,
    ensures
        spec_sell_price(segs, q, t) == spec_buy_price(segs, (q + t) as u64, t),
    decreases segs.len(),
{
    if t == 0 || segs.len() == 0 {
    } else {
        let last = segs.last();
        let dl = segs.drop_last();
        let p = (q + t) as u64;
        assert(forall|i: int| 0 <= i < dl.len() ==> dl[i] == segs[i]);
        if p <= last.start_supply {
            if segs.len() == 1 {
                assert(t == 0);
            } else {
                assert(dl.last() == segs[segs.len() - 2]);
                assert(dl.last().end_supply == last.start_supply);
                lemma_sell_ignores_top(segs, q, t);
                lemma_buy_sell_symmetry(dl, q, t);
            }
        } else if q >= last.start_supply {
            lemma_sell_only_last(segs, q, t);
            let one = segs.skip(segs.len() - 1);
            assert(one.len() == 1 && one.first() == last && one.last() == last);
            assert(q < last.end_supply);
            assert(one.drop_first() =~= Seq::<CurveSegment>::empty());
            assert(spec_sell_price(one.drop_first(), (q + t) as u64, 0u64) == Some(0u64));
            assert(spec_buy_price(dl, q, 0u64) == Some(0u64));
        } else {
            // the range crosses the last segment's start
            let t_low = (last.start_supply - q) as u64;
            let t_high = (t - t_low) as u64;
            lemma_sell_split_last(segs, q, t);
            if segs.len() == 1 {
                assert(false);
            } else {
                assert(dl.last() == segs[segs.len() - 2]);
                assert(dl.last().end_supply == last.start_supply);
                lemma_buy_sell_symmetry(dl, q, t_low);
                assert(spec_buy_price(dl, last.start_supply, t_low) == spec_sell_price(
                    dl,
                    q,
                    t_low,
                ));
            }
        }
    }
}

/// No round-trip profit: whatever `c` SOL a buy of `t` tokens cost, selling
/// the same `t` tokens straight back is priced at exactly `c` before the
/// payout cap, so the capped payout can never exceed what was paid.
pub proof fn lemma_no_round_trip_profit(
    segs: Seq<CurveSegment>,
    bonding_supply: u64,
    p: u64,
    t: u64,
    c: u64,
    sol_in: u64,
    sol_reserves_after: u64,
)
    requires
        crate::segment::spec_segments_tile(segs, bonding_supply),
        t <= p <= bonding_supply,
        spec_buy_price(segs, p, t) == Some(c),
        c <= sol_in,
    ensures
        spec_sell_price(segs, (p - t) as u64, t) == Some(c),
        crate::curve::spec_capped(spec_sell_price(segs, (p - t) as u64, t), sol_reserves_after)
            matches Some(payout) && payout <= sol_in,
{
    lemma_buy_sell_symmetry(segs, (p - t) as u64, t);
}

} // verus!
