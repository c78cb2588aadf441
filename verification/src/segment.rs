//! Curve-segment schedule: validation of a basis-point schedule and its
//! resolution into absolute-supply segment boundaries.

use vstd::prelude::*;

use crate::math::{bps_mul, spec_bps_mul, BASIS_POINTS_DIVISOR};

verus! {

/// The pricing function of one segment, with its parameters:
/// a constant unit price; a line given by slope and intercept, both in
/// basis-point fixed point; or a fixed unit price `base^exponent / scale`.
#[derive(Clone, Copy, Debug, PartialEq, Eq, Structural)]
pub enum SegmentType {
    Constant(u64),
    Linear(u64, u64),
    Exponential(u64, u32, u64),
}

/// One entry of the caller-supplied schedule: a pricing function over the
/// half-open basis-point range `[start_supply_bps, end_supply_bps)` of the
/// tradable supply.
#[derive(Clone, Copy, Debug, PartialEq, Eq, Structural)]
pub struct CurveSegmentDef {
    pub segment_type: SegmentType,
    pub start_supply_bps: u64,
    pub end_supply_bps: u64,
}

/// A resolved segment: the same pricing function, with its bounds expressed
/// in absolute token units.
#[derive(Clone, Copy, Debug, PartialEq, Eq, Structural)]
pub struct CurveSegment {
    pub segment_type: SegmentType,
    pub start_supply: u64,
    pub end_supply: u64,
}

/// A schedule is valid when it is non-empty, starts at 0, ends at 10000, each
/// range is ordered and within bounds, and consecutive ranges meet exactly
/// (no gaps, no overlaps).
pub open spec fn spec_segments_valid(defs: Seq<CurveSegmentDef>) -> bool {
    &&& defs.len() > 0
    &&& defs[0].start_supply_bps == 0
    &&& defs[defs.len() - 1].end_supply_bps == BASIS_POINTS_DIVISOR
    &&& forall|i: int|
        0 <= i < defs.len() ==> {
            &&& #[trigger] defs[i].start_supply_bps <= defs[i].end_supply_bps
            &&& defs[i].start_supply_bps < BASIS_POINTS_DIVISOR
            &&& defs[i].end_supply_bps <= BASIS_POINTS_DIVISOR
        }
    &&& forall|i: int|
        0 <= i < defs.len() - 1 ==> #[trigger] defs[i].end_supply_bps == defs[i
            + 1].start_supply_bps
}

/// Each segment's bounds are ordered.
pub open spec fn spec_segments_ordered(segs: Seq<CurveSegment>) -> bool {
    forall|i: int| 0 <= i < segs.len() ==> (#[trigger] segs[i]).start_supply <= segs[i].end_supply
}

/// Consecutive segments meet exactly: no gaps and no overlaps.
pub open spec fn spec_segments_adjacent(segs: Seq<CurveSegment>) -> bool {
    forall|i: int|
        0 <= i < segs.len() - 1 ==> (#[trigger] segs[i]).end_supply == segs[i + 1].start_supply
}

/// Resolved segments tile the tradable supply `[0, bonding_supply)`: ordered,
/// adjacent, starting at zero and ending at the full tradable supply.
pub open spec fn spec_segments_tile(segs: Seq<CurveSegment>, bonding_supply: u64) -> bool {
    &&& segs.len() > 0
    &&& segs[0].start_supply == 0
    &&& segs[segs.len() - 1].end_supply == bonding_supply
    &&& forall|i: int|
        0 <= i < segs.len() ==> #[trigger] segs[i].start_supply <= segs[i].end_supply
    &&& forall|i: int|
        0 <= i < segs.len() - 1 ==> #[trigger] segs[i].end_supply == segs[i + 1].start_supply
}

/// The resolution of a schedule against the tradable supply: each segment
/// keeps its pricing function and maps both bounds through
/// `floor(bps * bonding_supply / 10000)`.
pub open spec fn spec_resolve_segments(defs: Seq<CurveSegmentDef>, bonding_supply: u64) -> Seq<
    CurveSegment,
> {
    defs.map(
        |i: int, d: CurveSegmentDef|
            CurveSegment {
                segment_type: d.segment_type,
                start_supply: spec_bps_mul(d.start_supply_bps, bonding_supply) as u64,
                end_supply: spec_bps_mul(d.end_supply_bps, bonding_supply) as u64,
            },
    )
}

/// Each resolved segment keeps its pricing function and maps both bounds
/// through `floor(bps * bonding_supply / 10000)`.
pub open spec fn spec_resolved_segments(
    defs: Seq<CurveSegmentDef>,
    bonding_supply: u64,
    segs: Seq<CurveSegment>,
) -> bool {
    &&& segs.len() == defs.len()
    &&& forall|i: int|
        0 <= i < defs.len() ==> {
            &&& (#[trigger] segs[i]).segment_type == defs[i].segment_type
            &&& segs[i].start_supply == spec_bps_mul(defs[i].start_supply_bps, bonding_supply)
            &&& segs[i].end_supply == spec_bps_mul(defs[i].end_supply_bps, bonding_supply)
        }
}

/// Decides [`spec_segments_valid`] for a caller-supplied schedule.
pub fn segments_is_valid(defs: &Vec<CurveSegmentDef>) -> (r: bool)
    ensures
        r == spec_segments_valid(defs@),
{
    if defs.len() == 0 {
        return false;
    }
    if defs[0].start_supply_bps != 0 {
        return false;
    }
    if defs[defs.len() - 1].end_supply_bps != BASIS_POINTS_DIVISOR {
        return false;
    }
    let mut i: usize = 0;
    while i < defs.len()
        invariant
            i <= defs.len(),
            forall|j: int|
                0 <= j < i ==> {
                    &&& #[trigger] defs@[j].start_supply_bps <= defs@[j].end_supply_bps
                    &&& defs@[j].start_supply_bps < BASIS_POINTS_DIVISOR
                    &&& defs@[j].end_supply_bps <= BASIS_POINTS_DIVISOR
                },
            forall|j: int|
                0 <= j < i && j < defs@.len() - 1 ==> #[trigger] defs@[j].end_supply_bps == defs@[j
                    + 1].start_supply_bps,
        decreases defs.len() - i,
    {
        let seg = defs[i];
        if !(seg.start_supply_bps <= seg.end_supply_bps && seg.start_supply_bps
            < BASIS_POINTS_DIVISOR && seg.end_supply_bps <= BASIS_POINTS_DIVISOR) {
            return false;
        }
        if i + 1 < defs.len() {
            if seg.end_supply_bps != defs[i + 1].start_supply_bps {
                return false;
            }
        }
        i = i + 1;
    }
    true
}

/// Resolves a valid schedule against the tradable supply, preserving order.
/// With every bound at or below 10000 basis points the conversion cannot
/// overflow.
pub fn into_segment_data(defs: &Vec<CurveSegmentDef>, bonding_supply: u64) -> (r: Vec<CurveSegment>)
    requires
        spec_segments_valid(defs@),
    ensures
        spec_resolved_segments(defs@, bonding_supply, r@),
        r@ == spec_resolve_segments(defs@, bonding_supply),
        spec_segments_tile(r@, bonding_supply),
{
    let mut segments: Vec<CurveSegment> = Vec::new();
    let mut i: usize = 0;
    while i < defs.len()
        invariant
            i <= defs.len(),
            spec_segments_valid(defs@),
            segments@.len() == i,
            forall|j: int|
                0 <= j < i ==> {
                    &&& (#[trigger] segments@[j]).segment_type == defs@[j].segment_type
                    &&& segments@[j].start_supply == spec_bps_mul(
                        defs@[j].start_supply_bps,
                        bonding_supply,
                    )
                    &&& segments@[j].end_supply == spec_bps_mul(
                        defs@[j].end_supply_bps,
                        bonding_supply,
                    )
                },
        decreases defs.len() - i,
    {
        let seg = defs[i];
        proof {
            crate::math::lemma_bps_mul_le_amount(seg.start_supply_bps, bonding_supply);
            crate::math::lemma_bps_mul_le_amount(seg.end_supply_bps, bonding_supply);
        }
        let start_supply = bps_mul(seg.start_supply_bps, bonding_supply).unwrap();
        let end_supply = bps_mul(seg.end_supply_bps, bonding_supply).unwrap();
        segments.push(
            CurveSegment { segment_type: seg.segment_type, start_supply, end_supply },
        );
        i = i + 1;
    }
    proof {
        lemma_segment_coverage(defs@, bonding_supply, segments@);
        assert forall|j: int| 0 <= j < defs@.len() implies segments@[j] == spec_resolve_segments(
            defs@,
            bonding_supply,
        )[j] by {
            crate::math::lemma_bps_mul_le_amount(defs@[j].start_supply_bps, bonding_supply);
            crate::math::lemma_bps_mul_le_amount(defs@[j].end_supply_bps, bonding_supply);
        }
        assert(segments@ =~= spec_resolve_segments(defs@, bonding_supply));
    }
    segments
}

/// Segment coverage: resolving any valid schedule yields segments that
/// exactly tile `[0, bonding_supply)`, with no gaps and no overlaps.
pub proof fn lemma_segment_coverage(
    defs: Seq<CurveSegmentDef>,
    bonding_supply: u64,
    segs: Seq<CurveSegment>,
)
    requires
        spec_segments_valid(defs),
        spec_resolved_segments(defs, bonding_supply, segs),
    ensures
        spec_segments_tile(segs, bonding_supply),
{
    assert(segs[0].start_supply == 0) by {
        vstd::arithmetic::div_mod::lemma_div_of0(BASIS_POINTS_DIVISOR as int);
        vstd::arithmetic::mul::lemma_mul_by_zero_is_zero(bonding_supply as int);
    }
    assert(segs[segs.len() - 1].end_supply == bonding_supply) by {
        vstd::arithmetic::mul::lemma_mul_is_commutative(
            BASIS_POINTS_DIVISOR as int,
            bonding_supply as int,
        );
        vstd::arithmetic::div_mod::lemma_div_multiples_vanish(
            bonding_supply as int,
            BASIS_POINTS_DIVISOR as int,
        );
    }
    assert forall|i: int| 0 <= i < segs.len() implies #[trigger] segs[i].start_supply
        <= segs[i].end_supply by {
        crate::math::lemma_bps_mul_is_ordered(
            defs[i].start_supply_bps,
            defs[i].end_supply_bps,
            bonding_supply,
        );
    }
}

} // verus!
