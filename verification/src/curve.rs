//! The segmented bonding curve: reserve state, piecewise price walks, and
//! the buy/sell state machine.
//!
//! `real_token_reserves` is the curve's position on the tradable range
//! `[0, bonding_supply]`: it counts the tradable tokens still held. A buy
//! consumes downward from the position, a sell re-covers the range upward,
//! so the cost of `t` tokens bought at position `p` is the piecewise price
//! of the range `[p - t, p)`, and a sell of `t` tokens prices `[p, p + t)`.

use vstd::prelude::*;

use crate::allocation::{
    spec_allocation_valid, spec_resolved_allocation, AllocationData, BondingCurveSupplyAllocation,
};
use crate::errors::ContractError;
use crate::ids::AccountId;
use crate::pricing::{calculate_segment_price, spec_segment_price};
use crate::segment::{spec_segments_tile, spec_segments_valid, CurveSegment, CurveSegmentDef, SegmentType};
use crate::vesting::VestingTerms;

verus! {

/// Curve lifecycle, a linear progression. `Complete` is reached when the
/// tradable reserves hit zero; `Launched` is terminal and set by an external
/// liquidity-migration action.
#[derive(Clone, Copy, Debug, PartialEq, Eq, Structural)]
pub enum BondingCurveStatus {
    Inactive,
    Prepared,
    Active,
    Complete,
    Launched,
}

/// A successful buy: tokens released by the curve for the SOL paid in.
#[derive(Clone, Copy, Debug, PartialEq, Eq, Structural)]
pub struct BuyResult {
    pub token_amount: u64,
    pub sol_amount: u64,
}

/// A successful sell: SOL paid out by the curve for the tokens returned.
#[derive(Clone, Copy, Debug, PartialEq, Eq, Structural)]
pub struct SellResult {
    pub token_amount: u64,
    pub sol_amount: u64,
}

/// Creation parameters for a segmented curve.
#[derive(Clone, Debug)]
pub struct CreateBondingCurveParams {
    pub start_time: Option<i64>,
    pub token_total_supply: u64,
    pub sol_launch_threshold: u64,
    pub allocation: crate::allocation::AllocationDataParams,
    pub curve_segments: Vec<CurveSegmentDef>,
    pub vesting_terms: Option<VestingTerms>,
}

/// The aggregate root of one segmented curve.
#[derive(Clone, Debug, PartialEq)]
pub struct BondingCurve {
    pub mint: AccountId,
    pub creator: AccountId,
    pub cex_authority: AccountId,
    pub brand_authority: AccountId,
    pub status: BondingCurveStatus,
    pub real_sol_reserves: u64,
    pub real_token_reserves: u64,
    pub token_total_supply: u64,
    pub sol_launch_threshold: u64,
    pub start_time: i64,
    pub vesting_terms: VestingTerms,
    pub allocation: AllocationData,
    pub supply_allocation: BondingCurveSupplyAllocation,
    pub curve_segments: Vec<CurveSegment>,
    pub bump: u8,
}

/// Adds a piece to an accumulated cost, failing when the piece failed or the
/// sum leaves `u64`.
pub open spec fn spec_add_opt(acc: u64, o: Option<u64>) -> Option<u64> {
    match o {
        None => None,
        Some(c) => if acc + c <= u64::MAX {
            Some((acc + c) as u64)
        } else {
            None
        },
    }
}

/// Caps a computed payout at what the curve holds; a failed computation
/// stays failed.
pub open spec fn spec_capped(o: Option<u64>, cap: u64) -> Option<u64> {
    match o {
        None => None,
        Some(c) => if c > cap {
            Some(cap)
        } else {
            Some(c)
        },
    }
}

/// Piecewise cost of buying `tokens` at `position`: segments are walked from
/// the highest down, each contributing the price of its part of the range
/// `[position - tokens, position)`; walking stops when the tokens are
/// exhausted or the segments run out.
pub open spec fn spec_buy_price(segs: Seq<CurveSegment>, position: u64, tokens: u64) -> Option<u64>
    decreases segs.len(),
{
    if tokens == 0 || segs.len() == 0 {
        Some(0u64)
    } else {
        let seg = segs.last();
        if position <= seg.start_supply {
            spec_buy_price(segs.drop_last(), position, tokens)
        } else {
            let avail = position - seg.start_supply;
            let take = if tokens <= avail {
                tokens as int
            } else {
                avail
            };
            let piece = spec_segment_price(seg, (position - take) as u64, take as u64);
            match piece {
                None => None,
                Some(c) => spec_add_opt(
                    c,
                    spec_buy_price(
                        segs.drop_last(),
                        (position - take) as u64,
                        (tokens - take) as u64,
                    ),
                ),
            }
        }
    }
}

/// Piecewise cost of selling `tokens` at `position`: segments are walked
/// from the lowest up, each contributing the price of its part of the range
/// `[position, position + tokens)`; walking stops when the tokens are
/// exhausted or the segments run out.
pub open spec fn spec_sell_price(segs: Seq<CurveSegment>, position: u64, tokens: u64) -> Option<u64>
    decreases segs.len(),
{
    if tokens == 0 || segs.len() == 0 {
        Some(0u64)
    } else {
        let seg = segs.first();
        if seg.end_supply <= position {
            spec_sell_price(segs.drop_first(), position, tokens)
        } else {
            let from = if position >= seg.start_supply {
                position as int
            } else {
                seg.start_supply as int
            };
            let avail = seg.end_supply - from;
            let take = if tokens <= avail {
                tokens as int
            } else {
                avail
            };
            let piece = spec_segment_price(seg, from as u64, take as u64);
            match piece {
                None => None,
                Some(c) => spec_add_opt(
                    c,
                    spec_sell_price(
                        segs.drop_first(),
                        (from + take) as u64,
                        (tokens - take) as u64,
                    ),
                ),
            }
        }
    }
}

/// The greedy buy inverse: walking from the highest segment down, whole
/// segments are consumed while their full cost fits the budget, and the
/// first segment that does not fit contributes its partial take and ends
/// the walk. Returns the tokens taken and the budget left over.
pub open spec fn spec_buy_inverse(segs: Seq<CurveSegment>, position: u64, budget: u64) -> Option<
    (int, u64),
>
    decreases segs.len(),
{
    if segs.len() == 0 {
        Some((0int, budget))
    } else {
        let seg = segs.last();
        if position <= seg.start_supply {
            spec_buy_inverse(segs.drop_last(), position, budget)
        } else {
            let avail = (position - seg.start_supply) as u64;
            match spec_segment_price(seg, seg.start_supply, avail) {
                None => None,
                Some(c) => if c <= budget {
                    if budget == c {
                        Some((avail as int, 0u64))
                    } else {
                        match spec_buy_inverse(
                            segs.drop_last(),
                            seg.start_supply,
                            (budget - c) as u64,
                        ) {
                            None => None,
                            Some((rest, left)) => Some((avail + rest, left)),
                        }
                    }
                } else {
                    Some((spec_partial_take(seg, position, avail, budget, true) as int, budget))
                },
            }
        }
    }
}

/// The greedy sell inverse: walking from the lowest segment up, whole
/// segments are consumed while their full payout fits the budget, and the
/// first segment that does not fit contributes its partial take and ends
/// the walk. Returns the tokens taken and the budget left over.
pub open spec fn spec_sell_inverse(segs: Seq<CurveSegment>, position: u64, budget: u64) -> Option<
    (int, u64),
>
    decreases segs.len(),
{
    if segs.len() == 0 {
        Some((0int, budget))
    } else {
        let seg = segs.first();
        if seg.end_supply <= position {
            spec_sell_inverse(segs.drop_first(), position, budget)
        } else {
            let from = if position >= seg.start_supply {
                position
            } else {
                seg.start_supply
            };
            let avail = (seg.end_supply - from) as u64;
            match spec_segment_price(seg, from, avail) {
                None => None,
                Some(c) => if c <= budget {
                    if budget == c {
                        Some((avail as int, 0u64))
                    } else {
                        match spec_sell_inverse(
                            segs.drop_first(),
                            seg.end_supply,
                            (budget - c) as u64,
                        ) {
                            None => None,
                            Some((rest, left)) => Some((avail + rest, left)),
                        }
                    }
                } else {
                    Some((spec_partial_take(seg, from, avail, budget, false) as int, budget))
                },
            }
        }
    }
}

impl BondingCurve {
    /// Structural well-formedness: the segments tile the tradable supply and
    /// the position never exceeds it.
    pub open spec fn wf(self) -> bool {
        &&& spec_segments_tile(self.curve_segments@, self.supply_allocation.bonding_supply)
        &&& self.real_token_reserves <= self.supply_allocation.bonding_supply
    }

    /// Creates a curve from caller parameters at time `now`, validating the
    /// allocation, the segment schedule, the start time and the launch
    /// threshold; each validation failure is fatal and aborts the creation.
    pub fn create_from_params(
        mint: AccountId,
        creator: AccountId,
        brand_authority: AccountId,
        cex_authority: AccountId,
        params: &CreateBondingCurveParams,
        now: i64,
        bump: u8,
    ) -> (r: Result<BondingCurve, ContractError>)
        ensures
            ({
                let a = crate::allocation::spec_allocation_from_params(params.allocation);
                let st = match params.start_time {
                    Some(s) => s,
                    None => now,
                };
                let bonding = crate::math::spec_bps_mul(a.curve_reserve, params.token_total_supply);
                let segs = crate::segment::spec_resolve_segments(
                    params.curve_segments@,
                    bonding as u64,
                );
                let max_opt = if bonding == 0 {
                    Some(0u64)
                } else {
                    spec_buy_price(segs, bonding as u64, bonding as u64)
                };
                &&& (!spec_allocation_valid(a) ==> r == Err::<BondingCurve, _>(
                    ContractError::InvalidAllocation,
                ))
                &&& (spec_allocation_valid(a) && !spec_segments_valid(params.curve_segments@)
                    ==> r == Err::<BondingCurve, _>(ContractError::InvalidCurveSegments))
                &&& (spec_allocation_valid(a) && spec_segments_valid(params.curve_segments@) && st
                    < now ==> r == Err::<BondingCurve, _>(ContractError::InvalidStartTime))
                &&& (spec_allocation_valid(a) && spec_segments_valid(params.curve_segments@) && st
                    >= now ==> {
                    match max_opt {
                        None => r == Err::<BondingCurve, _>(ContractError::NoMaxAttainableSOL),
                        Some(max_sol) => {
                            if params.sol_launch_threshold > max_sol {
                                r == Err::<BondingCurve, _>(ContractError::SOLLaunchThresholdTooHigh)
                            } else {
                                r matches Ok(bc) && bc == (BondingCurve {
                                    mint,
                                    creator,
                                    cex_authority,
                                    brand_authority,
                                    status: BondingCurveStatus::Inactive,
                                    real_sol_reserves: 0u64,
                                    real_token_reserves: bonding as u64,
                                    token_total_supply: params.token_total_supply,
                                    sol_launch_threshold: params.sol_launch_threshold,
                                    start_time: st,
                                    vesting_terms: match params.vesting_terms {
                                        Some(v) => v,
                                        None => VestingTerms { cliff: 604800, duration: 2678400 },
                                    },
                                    allocation: a,
                                    supply_allocation: bc.supply_allocation,
                                    curve_segments: bc.curve_segments,
                                    bump,
                                }) && bc.curve_segments@ == segs && spec_resolved_allocation(
                                    a,
                                    params.token_total_supply,
                                    bc.supply_allocation,
                                ) && bc.wf()
                            }
                        },
                    }
                })
            }),
    {
        let allocation = AllocationData::from_params(params.allocation);
        if !allocation.is_valid() {
            return Err(ContractError::InvalidAllocation);
        }
        if !crate::segment::segments_is_valid(&params.curve_segments) {
            return Err(ContractError::InvalidCurveSegments);
        }
        let start_time = match params.start_time {
            Some(s) => s,
            None => now,
        };
        if start_time < now {
            return Err(ContractError::InvalidStartTime);
        }
        let supply_allocation = BondingCurveSupplyAllocation::new_from_allocation(
            &allocation,
            params.token_total_supply,
        );
        let curve_segments = crate::segment::into_segment_data(
            &params.curve_segments,
            supply_allocation.bonding_supply,
        );
        let vesting_terms = match params.vesting_terms {
            Some(v) => v,
            None => VestingTerms::default(),
        };
        let curve = BondingCurve {
            mint,
            creator,
            cex_authority,
            brand_authority,
            status: BondingCurveStatus::Inactive,
            real_sol_reserves: 0,
            real_token_reserves: supply_allocation.bonding_supply,
            token_total_supply: params.token_total_supply,
            sol_launch_threshold: params.sol_launch_threshold,
            start_time,
            vesting_terms,
            allocation,
            supply_allocation,
            curve_segments,
            bump,
        };
        let max_sol = match curve.get_max_attainable_sol() {
            Some(m) => m,
            None => {
                return Err(ContractError::NoMaxAttainableSOL);
            },
        };
        if params.sol_launch_threshold > max_sol {
            return Err(ContractError::SOLLaunchThresholdTooHigh);
        }
        Ok(curve)
    }

    /// Whether trading has started at time `now`.
    pub fn is_started(&self, now: i64) -> (r: bool)
        ensures
            r == (now >= self.start_time),
    {
        now >= self.start_time
    }

    /// SOL cost of buying `tokens` from the curve at its current position.
    /// A zero request and a request beyond the remaining tradable reserves
    /// are rejected.
    pub fn get_buy_price(&self, tokens: u64) -> (r: Option<u64>)
        ensures
            tokens == 0 || tokens > self.real_token_reserves ==> r is None,
            0 < tokens <= self.real_token_reserves ==> r == spec_buy_price(
                self.curve_segments@,
                self.real_token_reserves,
                tokens,
            ),
    {
        if tokens == 0 || tokens > self.real_token_reserves {
            return None;
        }
        self.walk_buy_price(self.real_token_reserves, tokens)
    }

    /// The buy walk itself, shared with the inverse walk: iterates segments
    /// from the highest down, mirroring [`spec_buy_price`] exactly.
    fn walk_buy_price(&self, position: u64, tokens: u64) -> (r: Option<u64>)
        ensures
            r == spec_buy_price(self.curve_segments@, position, tokens),
    {
        let ghost all = self.curve_segments@;
        let mut remaining: u64 = tokens;
        let mut total: u64 = 0;
        let mut position_now: u64 = position;
        let mut i: usize = self.curve_segments.len();
        proof {
            assert(all.take(i as int) =~= all);
        }
        while i > 0
            invariant
                i <= self.curve_segments.len(),
                all == self.curve_segments@,
                spec_buy_price(all, position, tokens) == spec_add_opt(
                    total,
                    spec_buy_price(all.take(i as int), position_now, remaining),
                ),
            decreases i,
        {
            let ghost before = all.take(i as int);
            i = i - 1;
            proof {
                assert(before.len() == i + 1);
                assert(before.drop_last() =~= all.take(i as int));
                assert(before.last() == all[i as int]);
            }
            let seg = self.curve_segments[i];
            if position_now <= seg.start_supply {
                proof {
                    assert(spec_buy_price(before, position_now, remaining) == spec_buy_price(
                        all.take(i as int),
                        position_now,
                        remaining,
                    ));
                }
                continue ;
            }
            if remaining == 0 {
                proof {
                    assert(spec_buy_price(before, position_now, remaining) == Some(0u64));
                    assert(spec_buy_price(all, position, tokens) == Some(total));
                }
                return Some(total);
            }
            let avail = position_now - seg.start_supply;
            let take_amt = if remaining <= avail {
                remaining
            } else {
                avail
            };
            let ghost rest = spec_buy_price(
                all.take(i as int),
                (position_now - take_amt) as u64,
                (remaining - take_amt) as u64,
            );
            let piece = match calculate_segment_price(&seg, position_now - take_amt, take_amt) {
                Some(c) => c,
                None => {
                    proof {
                        assert(spec_buy_price(before, position_now, remaining) is None);
                    }
                    return None;
                },
            };
            proof {
                assert(spec_buy_price(before, position_now, remaining) == spec_add_opt(
                    piece,
                    rest,
                ));
            }
            total = match total.checked_add(piece) {
                Some(v) => v,
                None => {
                    proof {
                        assert(spec_add_opt(total, spec_add_opt(piece, rest)) is None);
                    }
                    return None;
                },
            };
            remaining = remaining - take_amt;
            position_now = position_now - take_amt;
        }
        proof {
            assert(all.take(0) =~= Seq::<CurveSegment>::empty());
            assert(spec_buy_price(all.take(0), position_now, remaining) == Some(0u64));
        }
        Some(total)
    }

    /// SOL paid out for selling `tokens` back to the curve at its current
    /// position, capped at the SOL the curve actually holds (the curve keeps
    /// the spread). A zero request is rejected.
    pub fn get_sell_price(&self, tokens: u64) -> (r: Option<u64>)
        requires
            crate::segment::spec_segments_ordered(self.curve_segments@),
        ensures
            tokens == 0 ==> r is None,
            tokens > 0 ==> r == spec_capped(
                spec_sell_price(self.curve_segments@, self.real_token_reserves, tokens),
                self.real_sol_reserves,
            ),
    {
        if tokens == 0 {
            return None;
        }
        match self.walk_sell_price(self.real_token_reserves, tokens) {
            Some(total) => if total > self.real_sol_reserves {
                Some(self.real_sol_reserves)
            } else {
                Some(total)
            },
            None => None,
        }
    }

    /// The sell walk: iterates segments from the lowest up, mirroring
    /// [`spec_sell_price`] exactly.
    fn walk_sell_price(&self, position: u64, tokens: u64) -> (r: Option<u64>)
        requires
            crate::segment::spec_segments_ordered(self.curve_segments@),
        ensures
            r == spec_sell_price(self.curve_segments@, position, tokens),
    {
        let ghost all = self.curve_segments@;
        let mut remaining: u64 = tokens;
        let mut total: u64 = 0;
        let mut position_now: u64 = position;
        let mut i: usize = 0;
        proof {
            assert(all.skip(0) =~= all);
        }
        while i < self.curve_segments.len()
            invariant
                i <= self.curve_segments.len(),
                all == self.curve_segments@,
                crate::segment::spec_segments_ordered(all),
                spec_sell_price(all, position, tokens) == spec_add_opt(
                    total,
                    spec_sell_price(all.skip(i as int), position_now, remaining),
                ),
            decreases self.curve_segments.len() - i,
        {
            let ghost before = all.skip(i as int);
            proof {
                assert(before.len() == all.len() - i);
                assert(before.drop_first() =~= all.skip(i + 1));
                assert(before.first() == all[i as int]);
            }
            let seg = self.curve_segments[i];
            if seg.end_supply <= position_now {
                i = i + 1;
                continue ;
            }
            if remaining == 0 {
                proof {
                    assert(spec_sell_price(before, position_now, remaining) == Some(0u64));
                    assert(spec_sell_price(all, position, tokens) == Some(total));
                }
                return Some(total);
            }
            let from = if position_now >= seg.start_supply {
                position_now
            } else {
                seg.start_supply
            };
            let avail = seg.end_supply - from;
            let take_amt = if remaining <= avail {
                remaining
            } else {
                avail
            };
            let ghost rest = spec_sell_price(
                all.skip(i + 1),
                (from + take_amt) as u64,
                (remaining - take_amt) as u64,
            );
            let piece = match calculate_segment_price(&seg, from, take_amt) {
                Some(c) => c,
                None => {
                    proof {
                        assert(spec_sell_price(before, position_now, remaining) is None);
                    }
                    return None;
                },
            };
            proof {
                assert(spec_sell_price(before, position_now, remaining) == spec_add_opt(
                    piece,
                    rest,
                ));
            }
            total = match total.checked_add(piece) {
                Some(v) => v,
                None => {
                    proof {
                        assert(spec_add_opt(total, spec_add_opt(piece, rest)) is None);
                    }
                    return None;
                },
            };
            remaining = remaining - take_amt;
            position_now = from + take_amt;
            i = i + 1;
        }
        proof {
            assert(all.skip(all.len() as int) =~= Seq::<CurveSegment>::empty());
            assert(spec_sell_price(all.skip(all.len() as int), position_now, remaining) == Some(
                0u64,
            ));
        }
        Some(total)
    }

    /// Tokens obtainable for `sol_amount`: exactly the greedy inverse walk
    /// [`spec_buy_inverse`]. The result's cost never exceeds the budget, and
    /// whenever the whole remaining supply is priceable, a positive budget
    /// always buys something.
    #[verifier::rlimit(100)]
    pub fn get_tokens_for_buy_sol(&self, sol_amount: u64) -> (r: Option<u64>)
        requires
            crate::segment::spec_segments_ordered(self.curve_segments@),
        ensures
            sol_amount == 0 ==> r is None,
            r matches Some(t) ==> t <= self.real_token_reserves && (exists|c: u64|
                spec_buy_price(self.curve_segments@, self.real_token_reserves, t) == Some(c) && c
                    <= sol_amount),
            sol_amount > 0 && spec_buy_price(
                self.curve_segments@,
                self.real_token_reserves,
                self.real_token_reserves,
            ) is Some ==> r is Some,
            sol_amount > 0 ==> (match spec_buy_inverse(
                self.curve_segments@,
                self.real_token_reserves,
                sol_amount,
            ) {
                None => r is None,
                Some(pr) => r matches Some(t) && t == pr.0,
            }),
    {
        if sol_amount == 0 {
            return None;
        }
        let ghost all = self.curve_segments@;
        let p0 = self.real_token_reserves;
        let mut remaining_sol: u64 = sol_amount;
        let mut total_tokens: u64 = 0;
        let mut position_now: u64 = p0;
        let ghost mut spent: u64 = 0;
        let mut i: usize = self.curve_segments.len();
        proof {
            assert(all.take(i as int) =~= all);
        }
        while i > 0
            invariant
                i <= self.curve_segments.len(),
                all == self.curve_segments@,
                crate::segment::spec_segments_ordered(all),
                sol_amount > 0,
                p0 == self.real_token_reserves,
                position_now == p0 - total_tokens,
                spent + remaining_sol == sol_amount,
                forall|x: u64|
                    x <= position_now ==> #[trigger] spec_buy_price(
                        all,
                        p0,
                        (total_tokens + x) as u64,
                    ) == spec_add_opt(
                        spent,
                        spec_buy_price(all.take(i as int), position_now, x),
                    ),
                spec_buy_inverse(all, p0, sol_amount) == (match spec_buy_inverse(
                    all.take(i as int),
                    position_now,
                    remaining_sol,
                ) {
                    None => None::<(int, u64)>,
                    Some(pr) => Some((total_tokens + pr.0, pr.1)),
                }),
            decreases i,
        {
            let ghost before = all.take(i as int);
            i = i - 1;
            proof {
                assert(before.len() == i + 1);
                assert(before.drop_last() =~= all.take(i as int));
                assert(before.last() == all[i as int]);
            }
            let seg = self.curve_segments[i];
            if position_now <= seg.start_supply {
                proof {
                    assert forall|x: u64| x <= position_now implies #[trigger] spec_buy_price(
                        all,
                        p0,
                        (total_tokens + x) as u64,
                    ) == spec_add_opt(
                        spent,
                        spec_buy_price(all.take(i as int), position_now, x),
                    ) by {
                        assert(spec_buy_price(before, position_now, x) == spec_buy_price(
                            all.take(i as int),
                            position_now,
                            x,
                        ));
                    }
                    assert(spec_buy_inverse(before, position_now, remaining_sol)
                        == spec_buy_inverse(all.take(i as int), position_now, remaining_sol));
                }
                continue ;
            }
            let avail = position_now - seg.start_supply;
            let segment_sol = match calculate_segment_price(&seg, seg.start_supply, avail) {
                Some(c) => c,
                None => {
                    proof {
                        assert(spec_buy_price(before, position_now, position_now) is None);
                        assert(spec_buy_price(all, p0, (total_tokens + position_now) as u64)
                            is None);
                        assert(total_tokens + position_now == p0);
                        assert(spec_buy_inverse(before, position_now, remaining_sol) is None);
                        assert(spec_buy_inverse(all, p0, sol_amount) is None);
                    }
                    return None;
                },
            };
            if segment_sol <= remaining_sol {
                remaining_sol = remaining_sol - segment_sol;
                total_tokens = total_tokens + avail;
                position_now = position_now - avail;
                let ghost old_spent = spent;
                proof {
                    spent = (spent + segment_sol) as u64;
                    assert forall|x: u64| x <= position_now implies #[trigger] spec_buy_price(
                        all,
                        p0,
                        (total_tokens + x) as u64,
                    ) == spec_add_opt(
                        spent,
                        spec_buy_price(all.take(i as int), position_now, x),
                    ) by {
                        let big = (avail + x) as u64;
                        assert(big <= position_now + avail);
                        assert(spec_buy_price(all, p0, ((total_tokens - avail) + big) as u64)
                            == spec_add_opt(
                            old_spent,
                            spec_buy_price(before, (position_now + avail) as u64, big),
                        ));
                        assert(spec_buy_price(before, (position_now + avail) as u64, big)
                            == spec_add_opt(
                            segment_sol,
                            spec_buy_price(all.take(i as int), position_now, x),
                        ));
                    }
                    assert(spec_buy_inverse(before, (position_now + avail) as u64, (remaining_sol
                        + segment_sol) as u64) == (if remaining_sol == 0 {
                        Some((avail as int, 0u64))
                    } else {
                        match spec_buy_inverse(all.take(i as int), position_now, remaining_sol) {
                            None => None::<(int, u64)>,
                            Some(pr) => Some((avail + pr.0, pr.1)),
                        }
                    }));
                }
                if remaining_sol == 0 {
                    proof {
                        assert(spec_buy_price(all.take(i as int), position_now, 0u64) == Some(
                            0u64,
                        ));
                        assert(spec_buy_price(all, p0, (total_tokens + 0u64) as u64)
                            == spec_add_opt(
                            spent,
                            spec_buy_price(all.take(i as int), position_now, 0u64),
                        ));
                        assert(spec_buy_price(all, p0, total_tokens) == Some(spent) && spent
                            <= sol_amount);
                        assert(spec_buy_inverse(all, p0, sol_amount) == Some(
                            (total_tokens as int, 0u64),
                        ));
                    }
                    return Some(total_tokens);
                }
            } else {
                let partial = calculate_tokens_for_segment(&seg, position_now, avail, remaining_sol, true);
                let ghost c_p = spec_segment_price(
                    seg,
                    (position_now - partial) as u64,
                    partial,
                )->0;
                let ghost pcost: u64 = if partial > 0 {
                    c_p
                } else {
                    0u64
                };
                proof {
                    if partial > 0 {
                        assert(spec_buy_price(before, position_now, partial) == spec_add_opt(
                            c_p,
                            spec_buy_price(
                                all.take(i as int),
                                (position_now - partial) as u64,
                                (partial - partial) as u64,
                            ),
                        ));
                        assert(spec_buy_price(before, position_now, partial) == Some(c_p));
                        assert(c_p <= remaining_sol);
                    } else {
                        assert(spec_buy_price(before, position_now, 0u64) == Some(0u64));
                    }
                    assert(spec_buy_price(before, position_now, partial) == Some(pcost));
                    assert(pcost <= remaining_sol);
                    assert(spec_buy_price(all, p0, (total_tokens + partial) as u64)
                        == spec_add_opt(spent, spec_buy_price(before, position_now, partial)));
                    assert(spec_buy_price(all, p0, (total_tokens + partial) as u64) == Some(
                        ((spent + pcost) as u64),
                    ));
                    assert(spent + pcost <= sol_amount);
                    assert(total_tokens + partial <= p0);
                    assert(before.last() == seg);
                    assert(position_now > seg.start_supply);
                    assert(avail == (position_now - seg.start_supply) as u64);
                    assert(spec_segment_price(seg, seg.start_supply, avail) == Some(segment_sol));
                    assert(segment_sol > remaining_sol);
                    assert(partial == spec_partial_take(
                        seg,
                        position_now,
                        avail,
                        remaining_sol,
                        true,
                    ));
                    assert(spec_buy_inverse(before, position_now, remaining_sol) == Some(
                        (partial as int, remaining_sol),
                    ));
                    assert(spec_buy_inverse(all, p0, sol_amount) == Some(
                        (total_tokens + partial, remaining_sol),
                    ));
                }
                return Some(total_tokens + partial);
            }
        }
        proof {
            assert(spec_buy_price(all.take(0), position_now, 0u64) == Some(0u64));
            assert(spec_buy_price(all, p0, (total_tokens + 0u64) as u64) == spec_add_opt(
                spent,
                spec_buy_price(all.take(0), position_now, 0u64),
            ));
            assert(spec_buy_price(all, p0, total_tokens) == Some(spent) && spent <= sol_amount);
            assert(spec_buy_inverse(all.take(0), position_now, remaining_sol) == Some(
                (0int, remaining_sol),
            ));
            assert(spec_buy_inverse(all, p0, sol_amount) == Some(
                (total_tokens as int, remaining_sol),
            ));
        }
        Some(total_tokens)
    }

    /// Tokens the curve takes back for a payout of `sol_amount`: exactly the
    /// greedy inverse walk [`spec_sell_inverse`]. The payout for the result
    /// never exceeds the requested amount, and never exceeds what the curve
    /// holds.
    #[verifier::rlimit(100)]
    pub fn get_tokens_for_sell_sol(&self, sol_amount: u64) -> (r: Option<u64>)
        requires
            crate::segment::spec_segments_ordered(self.curve_segments@),
        ensures
            sol_amount == 0 || sol_amount > self.real_sol_reserves ==> r is None,
            r matches Some(t) ==> (exists|c: u64|
                spec_sell_price(self.curve_segments@, self.real_token_reserves, t) == Some(c) && c
                    <= sol_amount),
            0 < sol_amount <= self.real_sol_reserves && spec_sell_price(
                self.curve_segments@,
                self.real_token_reserves,
                u64::MAX,
            ) is Some ==> r is Some,
            0 < sol_amount <= self.real_sol_reserves ==> (match spec_sell_inverse(
                self.curve_segments@,
                self.real_token_reserves,
                sol_amount,
            ) {
                None => r is None,
                Some(pr) => r matches Some(t) && t == pr.0,
            }),
    {
        if sol_amount == 0 || sol_amount > self.real_sol_reserves {
            return None;
        }
        let ghost all = self.curve_segments@;
        let p0 = self.real_token_reserves;
        let mut remaining_sol: u64 = sol_amount;
        let mut total_tokens: u64 = 0;
        let mut position_now: u64 = p0;
        let ghost mut spent: u64 = 0;
        let mut i: usize = 0;
        proof {
            assert(all.skip(0) =~= all);
        }
        while i < self.curve_segments.len()
            invariant
                i <= self.curve_segments.len(),
                all == self.curve_segments@,
                crate::segment::spec_segments_ordered(all),
                0 < sol_amount <= self.real_sol_reserves,
                p0 == self.real_token_reserves,
                p0 + total_tokens <= position_now,
                spent + remaining_sol == sol_amount,
                forall|x: u64|
                    x <= u64::MAX - total_tokens ==> #[trigger] spec_sell_price(
                        all,
                        p0,
                        (total_tokens + x) as u64,
                    ) == spec_add_opt(
                        spent,
                        spec_sell_price(all.skip(i as int), position_now, x),
                    ),
                spec_sell_inverse(all, p0, sol_amount) == (match spec_sell_inverse(
                    all.skip(i as int),
                    position_now,
                    remaining_sol,
                ) {
                    None => None::<(int, u64)>,
                    Some(pr) => Some((total_tokens + pr.0, pr.1)),
                }),
            decreases self.curve_segments.len() - i,
        {
            let ghost before = all.skip(i as int);
            proof {
                assert(before.len() == all.len() - i);
                assert(before.drop_first() =~= all.skip(i + 1));
                assert(before.first() == all[i as int]);
            }
            let seg = self.curve_segments[i];
            if seg.end_supply <= position_now {
                proof {
                    assert forall|x: u64| x <= u64::MAX - total_tokens implies #[trigger] spec_sell_price(
                        all,
                        p0,
                        (total_tokens + x) as u64,
                    ) == spec_add_opt(
                        spent,
                        spec_sell_price(all.skip(i + 1), position_now, x),
                    ) by {
                        assert(spec_sell_price(before, position_now, x) == spec_sell_price(
                            all.skip(i + 1),
                            position_now,
                            x,
                        ));
                    }
                    assert(spec_sell_inverse(before, position_now, remaining_sol)
                        == spec_sell_inverse(all.skip(i + 1), position_now, remaining_sol));
                }
                i = i + 1;
                continue ;
            }
            let from = if position_now >= seg.start_supply {
                position_now
            } else {
                seg.start_supply
            };
            let avail = seg.end_supply - from;
            let segment_sol = match calculate_segment_price(&seg, from, avail) {
                Some(c) => c,
                None => {
                    proof {
                        let ghost m = (u64::MAX - total_tokens) as u64;
                        assert(m >= 1);
                        assert(spec_sell_price(before, position_now, m) is None);
                        assert(spec_sell_price(all, p0, (total_tokens + m) as u64) is None);
                        assert(spec_sell_inverse(before, position_now, remaining_sol) is None);
                        assert(spec_sell_inverse(all, p0, sol_amount) is None);
                    }
                    return None;
                },
            };
            if segment_sol <= remaining_sol {
                remaining_sol = remaining_sol - segment_sol;
                let ghost old_total = total_tokens;
                let ghost old_spent = spent;
                let ghost old_position = position_now;
                total_tokens = total_tokens + avail;
                position_now = from + avail;
                proof {
                    spent = (spent + segment_sol) as u64;
                    assert forall|x: u64| x <= u64::MAX - total_tokens implies #[trigger] spec_sell_price(
                        all,
                        p0,
                        (total_tokens + x) as u64,
                    ) == spec_add_opt(
                        spent,
                        spec_sell_price(all.skip(i + 1), position_now, x),
                    ) by {
                        let big = (avail + x) as u64;
                        assert(avail + x <= u64::MAX - old_total);
                        assert(big == avail + x);
                        assert(spec_sell_price(all, p0, (old_total + big) as u64) == spec_add_opt(
                            old_spent,
                            spec_sell_price(before, old_position, big),
                        ));
                        assert(before.first() == seg);
                        assert(spec_sell_price(before, old_position, big) == spec_add_opt(
                            segment_sol,
                            spec_sell_price(all.skip(i + 1), position_now, x),
                        ));
                    }
                    assert(spec_sell_inverse(before, old_position, (remaining_sol + segment_sol)
                        as u64) == (if remaining_sol == 0 {
                        Some((avail as int, 0u64))
                    } else {
                        match spec_sell_inverse(all.skip(i + 1), position_now, remaining_sol) {
                            None => None::<(int, u64)>,
                            Some(pr) => Some((avail + pr.0, pr.1)),
                        }
                    }));
                }
                if remaining_sol == 0 {
                    proof {
                        assert(spec_sell_price(all.skip(i + 1), position_now, 0u64) == Some(0u64));
                        assert(spec_sell_price(all, p0, (total_tokens + 0u64) as u64)
                            == spec_add_opt(
                            spent,
                            spec_sell_price(all.skip(i + 1), position_now, 0u64),
                        ));
                        assert(spec_sell_price(all, p0, total_tokens) == Some(spent) && spent
                            <= sol_amount);
                        assert(spec_sell_inverse(all, p0, sol_amount) == Some(
                            (total_tokens as int, 0u64),
                        ));
                    }
                    return Some(total_tokens);
                }
                i = i + 1;
            } else {
                let partial = calculate_tokens_for_segment(&seg, from, avail, remaining_sol, false);
                let ghost c_p = spec_segment_price(seg, from, partial)->0;
                let ghost pcost: u64 = if partial > 0 {
                    c_p
                } else {
                    0u64
                };
                proof {
                    if partial > 0 {
                        assert(spec_sell_price(before, position_now, partial) == spec_add_opt(
                            c_p,
                            spec_sell_price(
                                all.skip(i + 1),
                                (from + partial) as u64,
                                (partial - partial) as u64,
                            ),
                        ));
                        assert(spec_sell_price(before, position_now, partial) == Some(c_p));
                        assert(c_p <= remaining_sol);
                    } else {
                        assert(spec_sell_price(before, position_now, 0u64) == Some(0u64));
                    }
                    assert(spec_sell_price(before, position_now, partial) == Some(pcost));
                    assert(pcost <= remaining_sol);
                    assert(spec_sell_price(all, p0, (total_tokens + partial) as u64)
                        == spec_add_opt(spent, spec_sell_price(before, position_now, partial)));
                    assert(spec_sell_price(all, p0, (total_tokens + partial) as u64) == Some(
                        ((spent + pcost) as u64),
                    ));
                    assert(spent + pcost <= sol_amount);
                    assert(before.first() == seg);
                    assert(spec_segment_price(seg, from, avail) == Some(segment_sol));
                    assert(segment_sol > remaining_sol);
                    assert(partial == spec_partial_take(seg, from, avail, remaining_sol, false));
                    assert(spec_sell_inverse(before, position_now, remaining_sol) == Some(
                        (partial as int, remaining_sol),
                    ));
                    assert(spec_sell_inverse(all, p0, sol_amount) == Some(
                        (total_tokens + partial, remaining_sol),
                    ));
                }
                return Some(total_tokens + partial);
            }
        }
        proof {
            assert(all.skip(all.len() as int) =~= Seq::<CurveSegment>::empty());
            assert(spec_sell_price(all.skip(all.len() as int), position_now, 0u64) == Some(0u64));
            assert(spec_sell_price(all, p0, (total_tokens + 0u64) as u64) == spec_add_opt(
                spent,
                spec_sell_price(all.skip(all.len() as int), position_now, 0u64),
            ));
            assert(spec_sell_price(all, p0, total_tokens) == Some(spent) && spent <= sol_amount);
            assert(spec_sell_inverse(all.skip(all.len() as int), position_now, remaining_sol)
                == Some((0int, remaining_sol)));
            assert(spec_sell_inverse(all, p0, sol_amount) == Some(
                (total_tokens as int, remaining_sol),
            ));
        }
        Some(total_tokens)
    }

    /// Applies a buy of `sol_amount` SOL: computes the tokens obtainable,
    /// then moves the reserves, all or nothing. On any failure the state is
    /// unchanged. Success is owed whenever the whole remaining supply is
    /// priceable and the SOL counter cannot overflow.
    pub fn apply_buy(&mut self, sol_amount: u64) -> (r: Option<BuyResult>)
        requires
            crate::segment::spec_segments_ordered(old(self).curve_segments@),
        ensures
            r is None ==> *final(self) == *old(self),
            sol_amount == 0 ==> r is None,
            r matches Some(br) ==> {
                &&& br.sol_amount == sol_amount
                &&& br.token_amount <= old(self).real_token_reserves
                &&& (spec_buy_inverse(
                    old(self).curve_segments@,
                    old(self).real_token_reserves,
                    sol_amount,
                ) matches Some(pr) && pr.0 == br.token_amount)
                &&& (exists|c: u64|
                    spec_buy_price(
                        old(self).curve_segments@,
                        old(self).real_token_reserves,
                        br.token_amount,
                    ) == Some(c) && c <= sol_amount)
                &&& final(self).real_token_reserves == old(self).real_token_reserves
                    - br.token_amount
                &&& final(self).real_sol_reserves == old(self).real_sol_reserves + sol_amount
                &&& *final(self) == (BondingCurve {
                    real_token_reserves: final(self).real_token_reserves,
                    real_sol_reserves: final(self).real_sol_reserves,
                    ..*old(self)
                })
            },
            sol_amount > 0 ==> (r is Some <==> (spec_buy_inverse(
                old(self).curve_segments@,
                old(self).real_token_reserves,
                sol_amount,
            ) is Some && old(self).real_sol_reserves + sol_amount <= u64::MAX)),
            sol_amount > 0 && old(self).real_sol_reserves + sol_amount <= u64::MAX
                && spec_buy_price(
                old(self).curve_segments@,
                old(self).real_token_reserves,
                old(self).real_token_reserves,
            ) is Some ==> r is Some,
    {
        let tokens_to_send = match self.get_tokens_for_buy_sol(sol_amount) {
            Some(t) => t,
            None => {
                return None;
            },
        };
        let new_token_reserves = self.real_token_reserves - tokens_to_send;
        let new_sol_reserves = match self.real_sol_reserves.checked_add(sol_amount) {
            Some(v) => v,
            None => {
                return None;
            },
        };
        self.real_token_reserves = new_token_reserves;
        self.real_sol_reserves = new_sol_reserves;
        Some(BuyResult { token_amount: tokens_to_send, sol_amount })
    }

    /// Applies a sell of `token_amount` tokens: tokens credited back may
    /// never exceed the curve's original tradable bucket, and the payout is
    /// capped at the SOL the curve holds. All or nothing; on any failure the
    /// state is unchanged.
    pub fn apply_sell(&mut self, token_amount: u64) -> (r: Option<SellResult>)
        requires
            crate::segment::spec_segments_ordered(old(self).curve_segments@),
        ensures
            r is None ==> *final(self) == *old(self),
            token_amount == 0 ==> r is None,
            old(self).real_token_reserves + token_amount > old(
                self,
            ).supply_allocation.bonding_supply ==> r is None,
            r matches Some(sr) ==> {
                &&& sr.token_amount == token_amount
                &&& old(self).real_token_reserves + token_amount <= old(
                    self,
                ).supply_allocation.bonding_supply
                &&& spec_capped(
                    spec_sell_price(
                        old(self).curve_segments@,
                        old(self).real_token_reserves,
                        token_amount,
                    ),
                    old(self).real_sol_reserves,
                ) == Some(sr.sol_amount)
                &&& sr.sol_amount <= old(self).real_sol_reserves
                &&& final(self).real_token_reserves == old(self).real_token_reserves
                    + token_amount
                &&& final(self).real_sol_reserves == old(self).real_sol_reserves - sr.sol_amount
                &&& *final(self) == (BondingCurve {
                    real_token_reserves: final(self).real_token_reserves,
                    real_sol_reserves: final(self).real_sol_reserves,
                    ..*old(self)
                })
            },
            token_amount > 0 ==> (r is Some <==> (old(self).real_token_reserves + token_amount
                <= old(self).supply_allocation.bonding_supply && spec_sell_price(
                old(self).curve_segments@,
                old(self).real_token_reserves,
                token_amount,
            ) is Some)),
    {
        let new_reserves = match self.real_token_reserves.checked_add(token_amount) {
            Some(v) => v,
            None => {
                return None;
            },
        };
        if new_reserves > self.supply_allocation.bonding_supply {
            return None;
        }
        let sol_amount = match self.get_sell_price(token_amount) {
            Some(s) => s,
            None => {
                return None;
            },
        };
        let new_sol_reserves = self.real_sol_reserves - sol_amount;
        self.real_token_reserves = new_reserves;
        self.real_sol_reserves = new_sol_reserves;
        Some(SellResult { token_amount, sol_amount })
    }

    /// The most SOL the curve can ever accumulate from here: the cost of
    /// buying out the whole remaining tradable supply, or the SOL already
    /// held once the supply is exhausted.
    pub fn get_max_attainable_sol(&self) -> (r: Option<u64>)
        ensures
            self.real_token_reserves == 0 ==> r == Some(self.real_sol_reserves),
            self.real_token_reserves > 0 ==> r == spec_buy_price(
                self.curve_segments@,
                self.real_token_reserves,
                self.real_token_reserves,
            ),
    {
        if self.real_token_reserves == 0 {
            return Some(self.real_sol_reserves);
        }
        self.get_buy_price(self.real_token_reserves)
    }

    /// Cross-checks the reserve counters against externally observed
    /// custodial balances: the SOL balance (net of the account's rent
    /// reserve) and token balance must match the counters exactly; a
    /// complete curve must be drained of tokens and funded past its launch
    /// threshold; and until launch the custodial token account must stay
    /// frozen. Any violation is fatal to the enclosing operation.
    pub fn check_invariants(
        &self,
        custodial_token_balance: u64,
        custodial_sol_balance: u64,
        token_account_frozen: bool,
    ) -> (r: Result<(), ContractError>)
        ensures
            r is Ok <==> {
                &&& custodial_sol_balance == self.real_sol_reserves
                &&& custodial_token_balance == self.real_token_reserves
                &&& (self.status == BondingCurveStatus::Complete ==> self.real_token_reserves == 0
                    && custodial_sol_balance >= self.sol_launch_threshold)
                &&& (self.status != BondingCurveStatus::Launched ==> token_account_frozen)
            },
            r is Err ==> r == Err::<(), ContractError>(ContractError::BondingCurveInvariant),
    {
        if custodial_sol_balance != self.real_sol_reserves {
            return Err(ContractError::BondingCurveInvariant);
        }
        if custodial_token_balance != self.real_token_reserves {
            return Err(ContractError::BondingCurveInvariant);
        }
        if self.status == BondingCurveStatus::Complete && self.real_token_reserves != 0 {
            return Err(ContractError::BondingCurveInvariant);
        }
        if self.status == BondingCurveStatus::Complete && custodial_sol_balance
            < self.sol_launch_threshold {
            return Err(ContractError::BondingCurveInvariant);
        }
        if self.status != BondingCurveStatus::Launched && !token_account_frozen {
            return Err(ContractError::BondingCurveInvariant);
        }
        Ok(())
    }

    /// Replaces the brand and CEX authorities; allowed only while the curve
    /// is inactive.
    pub fn set_authorities(&mut self, brand_authority: AccountId, cex_authority: AccountId) -> (r:
        Result<(), ContractError>)
        ensures
            old(self).status != BondingCurveStatus::Inactive ==> r == Err::<(), ContractError>(
                ContractError::BondingCurveNotInactive,
            ) && *final(self) == *old(self),
            old(self).status == BondingCurveStatus::Inactive ==> r is Ok && *final(self) == (
            BondingCurve { brand_authority, cex_authority, ..*old(self) }),
    {
        if self.status != BondingCurveStatus::Inactive {
            return Err(ContractError::BondingCurveNotInactive);
        }
        self.brand_authority = brand_authority;
        self.cex_authority = cex_authority;
        Ok(())
    }

}

/// The partial take of one segment, as a mathematical function: a plain
/// division for a constant price, the scaled division for the fixed
/// exponential unit price, and the bisection boundary for a linear price.
pub open spec fn spec_partial_take(
    seg: CurveSegment,
    anchor: u64,
    avail: u64,
    budget: u64,
    is_buy: bool,
) -> u64 {
    match seg.segment_type {
        SegmentType::Constant(price) => if price == 0 {
            0u64
        } else {
            ((budget as int) / (price as int)) as u64
        },
        SegmentType::Linear(slope, intercept) => crate::pricing::spec_linear_take(
            slope,
            intercept,
            anchor,
            is_buy,
            budget,
            avail,
        ),
        SegmentType::Exponential(base, exponent, scale) => {
            let p = vstd::arithmetic::power::pow(base as int, exponent as nat);
            if p <= 0 || scale == 0 {
                0u64
            } else {
                ((budget * scale) / p) as u64
            }
        },
    }
}

/// Solves the partial inverse inside one segment: the take whose cost
/// stays within the remaining budget. For a buy the take is priced over
/// `[anchor - r, anchor)`, for a sell over `[anchor, anchor + r)`. Called
/// only when the whole available range does not fit the budget; the
/// constant and exponential inverses are closed forms, the linear inverse
/// is found by bisection.
pub fn calculate_tokens_for_segment(
    seg: &CurveSegment,
    anchor: u64,
    avail: u64,
    budget: u64,
    is_buy: bool,
) -> (r: u64)
        requires
            is_buy ==> avail <= anchor,
            is_buy ==> (spec_segment_price(*seg, (anchor - avail) as u64, avail) matches Some(c)
                && c > budget),
            !is_buy ==> (spec_segment_price(*seg, anchor, avail) matches Some(c) && c > budget),
        ensures
            r == spec_partial_take(*seg, anchor, avail, budget, is_buy),
            r <= avail,
            is_buy && r > 0 ==> (spec_segment_price(*seg, (anchor - r) as u64, r) matches Some(c)
                && c <= budget),
            !is_buy && r > 0 ==> (spec_segment_price(*seg, anchor, r) matches Some(c) && c
                <= budget),
    {
        match seg.segment_type {
            SegmentType::Constant(price) => {
                proof {
                    if price == 0 {
                        assert(price * avail == 0) by (nonlinear_arith)
                            requires
                                price == 0,
                        ;
                    }
                    assert(price > 0);
                }
                let t = budget / price;
                proof {
                    vstd::arithmetic::div_mod::lemma_fundamental_div_mod(
                        budget as int,
                        price as int,
                    );
                    vstd::arithmetic::div_mod::lemma_mod_bound(budget as int, price as int);
                    assert(price * t <= budget);
                    assert(t < avail) by (nonlinear_arith)
                        requires
                            price * avail > budget,
                            price * t <= budget,
                            price > 0,
                    ;
                }
                t
            },
            SegmentType::Linear(slope, intercept) => {
                crate::pricing::calculate_tokens_for_linear(
                    slope,
                    intercept,
                    anchor,
                    avail,
                    budget,
                    is_buy,
                )
            },
            SegmentType::Exponential(base, exponent, scale) => {
                let powed = match crate::pricing::checked_pow_u64(base, exponent) {
                    Some(p) => p,
                    None => {
                        proof {
                            assert(false);
                        }
                        0
                    },
                };
                proof {
                    if powed == 0 {
                        assert((0int) * avail == 0) by (nonlinear_arith)
                            requires
                                true,
                        ;
                        vstd::arithmetic::div_mod::lemma_div_of0(scale as int);
                        assert(false);
                    }
                    assert(powed > 0);
                    assert((budget as u128) * (scale as u128) <= (u64::MAX as u128) * (u64::MAX
                        as u128)) by (nonlinear_arith)
                        requires
                            budget <= u64::MAX,
                            scale <= u64::MAX,
                    ;
                }
                let wide: u128 = (budget as u128) * (scale as u128) / (powed as u128);
                let ghost p = powed as int;
                let ghost s = scale as int;
                let ghost b = budget as int;
                let ghost a = avail as int;
                proof {
                    // the whole range does not fit the budget, so
                    // p * a > b * s, hence the take stays below the range
                    vstd::arithmetic::div_mod::lemma_fundamental_div_mod(p * a, s);
                    vstd::arithmetic::div_mod::lemma_mod_bound(p * a, s);
                    assert(p * a > b * s) by (nonlinear_arith)
                        requires
                            p * a == s * ((p * a) / s) + (p * a) % s,
                            0 <= (p * a) % s < s,
                            (p * a) / s > b,
                            s > 0,
                    ;
                    assert(a > 0) by (nonlinear_arith)
                        requires
                            p * a > b * s,
                            b >= 0,
                            s >= 0,
                            p > 0,
                            a >= 0,
                    ;
                    vstd::arithmetic::div_mod::lemma_fundamental_div_mod(b * s, p);
                    vstd::arithmetic::div_mod::lemma_mod_bound(b * s, p);
                    assert(wide < a) by (nonlinear_arith)
                        requires
                            b * s == p * ((b * s) / p) + (b * s) % p,
                            0 <= (b * s) % p < p,
                            p * a > b * s,
                            p > 0,
                            a > 0,
                            wide == (b * s) / p,
                    ;
                }
                let t = wide as u64;
                proof {
                    if t > 0 {
                        // cost of the take: p * t / s <= budget
                        assert(p * t <= b * s) by (nonlinear_arith)
                            requires
                                b * s == p * ((b * s) / p) + (b * s) % p,
                                0 <= (b * s) % p,
                                t == (b * s) / p,
                                p > 0,
                        ;
                        vstd::arithmetic::div_mod::lemma_div_is_ordered(p * t, b * s, s);
                        vstd::arithmetic::mul::lemma_mul_is_commutative(b, s);
                        vstd::arithmetic::div_mod::lemma_div_multiples_vanish(b, s);
                        vstd::arithmetic::mul::lemma_mul_nonnegative(p, t as int);
                        vstd::arithmetic::div_mod::lemma_div_pos_is_pos(p * t, s);
                    }
                }
                t
            },
        }
    }

/// Partial buy inverse of one segment: the take priced over
/// `[anchor - r, anchor)`.
pub fn calculate_tokens_for_buy_segment(seg: &CurveSegment, anchor: u64, avail: u64, budget: u64) -> (
    r: u64)
    requires
        avail <= anchor,
        spec_segment_price(*seg, (anchor - avail) as u64, avail) matches Some(c) && c > budget,
    ensures
        r <= avail,
        r > 0 ==> (spec_segment_price(*seg, (anchor - r) as u64, r) matches Some(c) && c
            <= budget),
{
    calculate_tokens_for_segment(seg, anchor, avail, budget, true)
}

/// Partial sell inverse of one segment: the take priced over
/// `[anchor, anchor + r)`.
pub fn calculate_tokens_for_sell_segment(seg: &CurveSegment, anchor: u64, avail: u64, budget: u64) -> (
    r: u64)
    requires
        spec_segment_price(*seg, anchor, avail) matches Some(c) && c > budget,
    ensures
        r <= avail,
        r > 0 ==> (spec_segment_price(*seg, anchor, r) matches Some(c) && c <= budget),
{
    calculate_tokens_for_segment(seg, anchor, avail, budget, false)
}

} // verus!
