//! Allocation model: converts basis-point allocation shares into absolute
//! token-supply buckets.

use vstd::prelude::*;

use crate::math::{bps_mul, spec_bps_mul, BASIS_POINTS_DIVISOR};

verus! {

/// Caller-supplied allocation shares, in basis points.
#[derive(Clone, Copy, Debug, PartialEq, Eq, Structural)]
pub struct AllocationDataParams {
    pub creator: u64,
    pub cex: u64,
    pub launch_brandkit: u64,
    pub lifetime_brandkit: u64,
    pub platform: u64,
    pub presale: u64,
    pub curve_reserve: u64,
    pub pool_reserve: u64,
}

/// Validated-shape allocation shares, in basis points. Created once at curve
/// creation from caller overrides merged with defaults; immutable afterward.
#[derive(Clone, Copy, Debug, PartialEq, Eq, Structural)]
pub struct AllocationData {
    pub creator: u64,
    pub cex: u64,
    pub launch_brandkit: u64,
    pub lifetime_brandkit: u64,
    pub platform: u64,
    pub presale: u64,
    pub curve_reserve: u64,
    pub pool_reserve: u64,
}

/// The sum of all eight shares, as an unbounded integer.
pub open spec fn spec_allocation_sum(a: AllocationData) -> int {
    a.creator + a.cex + a.launch_brandkit + a.lifetime_brandkit + a.platform + a.presale
        + a.curve_reserve + a.pool_reserve
}

/// Shares must sum to exactly one whole, the tradable share must be positive,
/// and the pool share must mirror the tradable share.
pub open spec fn spec_allocation_valid(a: AllocationData) -> bool {
    &&& spec_allocation_sum(a) == BASIS_POINTS_DIVISOR
    &&& a.curve_reserve > 0
    &&& a.pool_reserve == a.curve_reserve
}

impl Default for AllocationDataParams {
    /// Platform defaults: 5% creator, 10% CEX, 10% + 10% brandkit, 5%
    /// platform, no presale, 30% tradable mirrored by 30% pool.
    fn default() -> (r: Self)
        ensures
            r == (AllocationDataParams {
                creator: 500u64,
                cex: 1000u64,
                launch_brandkit: 1000u64,
                lifetime_brandkit: 1000u64,
                platform: 500u64,
                presale: 0u64,
                curve_reserve: 3000u64,
                pool_reserve: 3000u64,
            }),
    {
        AllocationDataParams {
            creator: 500,
            cex: 1000,
            launch_brandkit: 1000,
            lifetime_brandkit: 1000,
            platform: 500,
            presale: 0,
            curve_reserve: 3000,
            pool_reserve: 3000,
        }
    }
}

impl Default for AllocationData {
    fn default() -> (r: Self)
        ensures
            r == (AllocationData {
                creator: 500u64,
                cex: 1000u64,
                launch_brandkit: 1000u64,
                lifetime_brandkit: 1000u64,
                platform: 500u64,
                presale: 0u64,
                curve_reserve: 3000u64,
                pool_reserve: 3000u64,
            }),
            spec_allocation_valid(r),
    {
        AllocationData {
            creator: 500,
            cex: 1000,
            launch_brandkit: 1000,
            lifetime_brandkit: 1000,
            platform: 500,
            presale: 0,
            curve_reserve: 3000,
            pool_reserve: 3000,
        }
    }
}

/// The allocation a set of caller-supplied shares denotes, field for field.
pub open spec fn spec_allocation_from_params(params: AllocationDataParams) -> AllocationData {
    AllocationData {
        creator: params.creator,
        cex: params.cex,
        launch_brandkit: params.launch_brandkit,
        lifetime_brandkit: params.lifetime_brandkit,
        platform: params.platform,
        presale: params.presale,
        curve_reserve: params.curve_reserve,
        pool_reserve: params.pool_reserve,
    }
}

impl From<AllocationDataParams> for AllocationData {
    fn from(params: AllocationDataParams) -> (r: AllocationData)
        ensures
            r == spec_allocation_from_params(params),
    {
        AllocationData::from_params(params)
    }
}

impl vstd::std_specs::convert::FromSpecImpl<AllocationDataParams> for AllocationData {
    open spec fn obeys_from_spec() -> bool {
        true
    }

    open spec fn from_spec(params: AllocationDataParams) -> AllocationData {
        spec_allocation_from_params(params)
    }
}

impl AllocationData {
    /// Adopts caller-supplied shares field for field.
    pub fn from_params(params: AllocationDataParams) -> (r: AllocationData)
        ensures
            r == spec_allocation_from_params(params),
    {
        AllocationData {
            creator: params.creator,
            cex: params.cex,
            launch_brandkit: params.launch_brandkit,
            lifetime_brandkit: params.lifetime_brandkit,
            platform: params.platform,
            presale: params.presale,
            curve_reserve: params.curve_reserve,
            pool_reserve: params.pool_reserve,
        }
    }

    /// Decides [`spec_allocation_valid`]. The sum is taken in 128-bit width,
    /// so no input can make it wrap.
    pub fn is_valid(&self) -> (r: bool)
        ensures
            r == spec_allocation_valid(*self),
    {
        let sum: u128 = self.creator as u128 + self.cex as u128 + self.launch_brandkit as u128
            + self.lifetime_brandkit as u128 + self.platform as u128 + self.presale as u128
            + self.curve_reserve as u128 + self.pool_reserve as u128;
        sum == BASIS_POINTS_DIVISOR as u128 && self.curve_reserve > 0 && self.pool_reserve
            == self.curve_reserve
    }
}

/// Absolute token-supply buckets derived once from an [`AllocationData`] and
/// the token's total supply.
#[derive(Clone, Copy, Debug, PartialEq, Eq, Structural)]
pub struct BondingCurveSupplyAllocation {
    pub creator_vested_supply: u64,
    pub presale_supply: u64,
    pub bonding_supply: u64,
    pub pool_supply: u64,
    pub cex_supply: u64,
    pub launch_brandkit_supply: u64,
    pub lifetime_brandkit_supply: u64,
    pub platform_supply: u64,
}

/// The sum of all eight resolved buckets.
pub open spec fn spec_supply_sum(s: BondingCurveSupplyAllocation) -> int {
    s.creator_vested_supply + s.presale_supply + s.bonding_supply + s.pool_supply + s.cex_supply
        + s.launch_brandkit_supply + s.lifetime_brandkit_supply + s.platform_supply
}

/// Each bucket is its share of the total supply, rounded down.
pub open spec fn spec_resolved_allocation(
    a: AllocationData,
    total: u64,
    s: BondingCurveSupplyAllocation,
) -> bool {
    &&& s.creator_vested_supply == spec_bps_mul(a.creator, total)
    &&& s.presale_supply == spec_bps_mul(a.presale, total)
    &&& s.bonding_supply == spec_bps_mul(a.curve_reserve, total)
    &&& s.pool_supply == spec_bps_mul(a.pool_reserve, total)
    &&& s.cex_supply == spec_bps_mul(a.cex, total)
    &&& s.launch_brandkit_supply == spec_bps_mul(a.launch_brandkit, total)
    &&& s.lifetime_brandkit_supply == spec_bps_mul(a.lifetime_brandkit, total)
    &&& s.platform_supply == spec_bps_mul(a.platform, total)
}

/// Every share of a valid allocation is at most the whole.
proof fn lemma_valid_shares_bounded(a: AllocationData)
    requires
        spec_allocation_valid(a),
    ensures
        a.creator <= BASIS_POINTS_DIVISOR,
        a.cex <= BASIS_POINTS_DIVISOR,
        a.launch_brandkit <= BASIS_POINTS_DIVISOR,
        a.lifetime_brandkit <= BASIS_POINTS_DIVISOR,
        a.platform <= BASIS_POINTS_DIVISOR,
        a.presale <= BASIS_POINTS_DIVISOR,
        a.curve_reserve <= BASIS_POINTS_DIVISOR,
        a.pool_reserve <= BASIS_POINTS_DIVISOR,
{
}

impl BondingCurveSupplyAllocation {
    /// Resolves a validated allocation against the token's total supply:
    /// every bucket is `floor(share * total / 10000)`.
    pub fn new_from_allocation(allocation: &AllocationData, token_total_supply: u64) -> (r:
        BondingCurveSupplyAllocation)
        requires
            spec_allocation_valid(*allocation),
        ensures
            spec_resolved_allocation(*allocation, token_total_supply, r),
            r.bonding_supply <= token_total_supply,
    {
        proof {
            lemma_valid_shares_bounded(*allocation);
            crate::math::lemma_bps_mul_le_amount(allocation.creator, token_total_supply);
            crate::math::lemma_bps_mul_le_amount(allocation.presale, token_total_supply);
            crate::math::lemma_bps_mul_le_amount(allocation.curve_reserve, token_total_supply);
            crate::math::lemma_bps_mul_le_amount(allocation.pool_reserve, token_total_supply);
            crate::math::lemma_bps_mul_le_amount(allocation.cex, token_total_supply);
            crate::math::lemma_bps_mul_le_amount(allocation.launch_brandkit, token_total_supply);
            crate::math::lemma_bps_mul_le_amount(allocation.lifetime_brandkit, token_total_supply);
            crate::math::lemma_bps_mul_le_amount(allocation.platform, token_total_supply);
        }
        let creator_vested_supply = bps_mul(allocation.creator, token_total_supply).unwrap();
        let presale_supply = bps_mul(allocation.presale, token_total_supply).unwrap();
        let bonding_supply = bps_mul(allocation.curve_reserve, token_total_supply).unwrap();
        let pool_supply = bps_mul(allocation.pool_reserve, token_total_supply).unwrap();
        let cex_supply = bps_mul(allocation.cex, token_total_supply).unwrap();
        let launch_brandkit_supply = bps_mul(allocation.launch_brandkit, token_total_supply)
            .unwrap();
        let lifetime_brandkit_supply = bps_mul(allocation.lifetime_brandkit, token_total_supply)
            .unwrap();
        let platform_supply = bps_mul(allocation.platform, token_total_supply).unwrap();
        BondingCurveSupplyAllocation {
            creator_vested_supply,
            presale_supply,
            bonding_supply,
            pool_supply,
            cex_supply,
            launch_brandkit_supply,
            lifetime_brandkit_supply,
            platform_supply,
        }
    }
}

/// Allocation completeness: for every valid allocation the resolved buckets
/// sum to at most the total supply, and the rounding loss of the floor
/// divisions is smaller than the number of buckets.
#[verifier::rlimit(100)]
pub proof fn lemma_allocation_completeness(
    a: AllocationData,
    total: u64,
    s: BondingCurveSupplyAllocation,
)
    requires
        spec_allocation_valid(a),
        spec_resolved_allocation(a, total, s),
    ensures
        spec_supply_sum(s) <= total,
        total - spec_supply_sum(s) < 8,
{
    let d = BASIS_POINTS_DIVISOR as int;
    let t = total as int;
    lemma_floor_sum_bound(a.creator as int, t, d);
    lemma_floor_sum_bound(a.presale as int, t, d);
    lemma_floor_sum_bound(a.curve_reserve as int, t, d);
    lemma_floor_sum_bound(a.pool_reserve as int, t, d);
    lemma_floor_sum_bound(a.cex as int, t, d);
    lemma_floor_sum_bound(a.launch_brandkit as int, t, d);
    lemma_floor_sum_bound(a.lifetime_brandkit as int, t, d);
    lemma_floor_sum_bound(a.platform as int, t, d);
    broadcast use vstd::arithmetic::mul::group_mul_is_commutative_and_distributive;

    let exact_sum = a.creator * t + a.presale * t + a.curve_reserve * t + a.pool_reserve * t
        + a.cex * t + a.launch_brandkit * t + a.lifetime_brandkit * t + a.platform * t;
    assert(exact_sum == d * t);
    let q = spec_supply_sum(s);
    assert(d * q <= exact_sum < d * (q + 8));
    assert(q <= t) by (nonlinear_arith)
        requires
            d * q <= d * t,
            d > 0,
    ;
    assert(t < q + 8) by (nonlinear_arith)
        requires
            d * t < d * (q + 8),
            d > 0,
    ;
}

/// `d * (x * t / d) <= x * t < d * (x * t / d + 1)`: the defining bounds of
/// floor division, phrased for one allocation share.
proof fn lemma_floor_sum_bound(x: int, t: int, d: int)
    requires
        x >= 0,
        t >= 0,
        d > 0,
    ensures
        d * ((x * t) / d) <= x * t < d * ((x * t) / d + 1),
{
    broadcast use vstd::arithmetic::mul::group_mul_is_commutative_and_distributive;

    vstd::arithmetic::mul::lemma_mul_nonnegative(x, t);
    vstd::arithmetic::div_mod::lemma_fundamental_div_mod(x * t, d);
    vstd::arithmetic::div_mod::lemma_mod_bound(x * t, d);
}

} // verus!
