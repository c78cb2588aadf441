use bonding_curve::allocation::{
    AllocationData, AllocationDataParams, BondingCurveSupplyAllocation,
};
use bonding_curve::curve::{BondingCurve, CreateBondingCurveParams};
use bonding_curve::errors::ContractError;
use bonding_curve::ids::AccountId;
use bonding_curve::pricing::{
    calculate_segment_price, calculate_tokens_for_linear, checked_pow_u64,
};
use bonding_curve::segment::{
    into_segment_data, segments_is_valid, CurveSegment, CurveSegmentDef, SegmentType,
};

const NOW: i64 = 100;

fn id(v: u64) -> AccountId {
    AccountId { value: v }
}

/// Half the supply tradable at a constant price, nothing else allocated.
fn constant_params(price: u64) -> CreateBondingCurveParams {
    CreateBondingCurveParams {
        start_time: Some(NOW),
        token_total_supply: 10000,
        sol_launch_threshold: 0,
        allocation: AllocationDataParams {
            creator: 0,
            cex: 0,
            launch_brandkit: 0,
            lifetime_brandkit: 0,
            platform: 0,
            presale: 0,
            curve_reserve: 5000,
            pool_reserve: 5000,
        },
        curve_segments: vec![CurveSegmentDef {
            segment_type: SegmentType::Constant(price),
            start_supply_bps: 0,
            end_supply_bps: 10000,
        }],
        vesting_terms: None,
    }
}

fn constant_curve(price: u64) -> BondingCurve {
    BondingCurve::create_from_params(id(1), id(2), id(3), id(4), &constant_params(price), NOW, 0)
        .unwrap()
}

/// Two constant segments: one lamport per token below half, three above.
fn stepped_curve() -> BondingCurve {
    let params = CreateBondingCurveParams {
        start_time: Some(NOW),
        token_total_supply: 2000,
        sol_launch_threshold: 0,
        allocation: AllocationDataParams {
            creator: 0,
            cex: 0,
            launch_brandkit: 0,
            lifetime_brandkit: 0,
            platform: 0,
            presale: 0,
            curve_reserve: 5000,
            pool_reserve: 5000,
        },
        curve_segments: vec![
            CurveSegmentDef {
                segment_type: SegmentType::Constant(1),
                start_supply_bps: 0,
                end_supply_bps: 5000,
            },
            CurveSegmentDef {
                segment_type: SegmentType::Constant(3),
                start_supply_bps: 5000,
                end_supply_bps: 10000,
            },
        ],
        vesting_terms: None,
    };
    BondingCurve::create_from_params(id(1), id(2), id(3), id(4), &params, NOW, 0).unwrap()
}

#[test]
fn constant_price_round_trip_restores_reserves() {
    // tradable supply 5000 at 2 lamports per token
    let mut curve = constant_curve(2);
    assert_eq!(curve.real_token_reserves, 5000);
    assert_eq!(curve.real_sol_reserves, 0);

    let buy = curve.apply_buy(1000).unwrap();
    assert_eq!(buy.token_amount, 500);
    assert_eq!(buy.sol_amount, 1000);
    assert_eq!(curve.real_token_reserves, 4500);
    assert_eq!(curve.real_sol_reserves, 1000);

    let sell = curve.apply_sell(500).unwrap();
    assert_eq!(sell.token_amount, 500);
    assert_eq!(sell.sol_amount, 1000);
    assert_eq!(curve.real_token_reserves, 5000);
    assert_eq!(curve.real_sol_reserves, 0);
}

#[test]
fn stepped_curve_walks_both_segments() {
    let curve = stepped_curve();
    assert_eq!(curve.real_token_reserves, 1000);
    // 500 tokens at 3, then 100 tokens at 1
    assert_eq!(curve.get_buy_price(600), Some(1600));
    assert_eq!(curve.get_tokens_for_buy_sol(1600), Some(600));
}

#[test]
fn stepped_curve_round_trip_never_profits() {
    let mut curve = stepped_curve();
    let buy = curve.apply_buy(1600).unwrap();
    assert_eq!(buy.token_amount, 600);
    let sell = curve.apply_sell(600).unwrap();
    assert!(sell.sol_amount <= buy.sol_amount);
    assert_eq!(sell.sol_amount, 1600);
}

#[test]
fn buy_price_is_monotone_in_tokens() {
    let curve = stepped_curve();
    let mut last: u64 = 0;
    let mut n: u64 = 100;
    while n <= 1000 {
        let price = curve.get_buy_price(n).unwrap();
        assert!(price >= last);
        last = price;
        n += 100;
    }
}

#[test]
fn zero_and_oversized_requests_fail() {
    let curve = constant_curve(2);
    assert_eq!(curve.get_buy_price(0), None);
    assert_eq!(curve.get_buy_price(5001), None);
    assert_eq!(curve.get_sell_price(0), None);
    assert_eq!(curve.get_tokens_for_buy_sol(0), None);
    assert_eq!(curve.get_tokens_for_sell_sol(0), None);
    assert_eq!(curve.get_tokens_for_sell_sol(1), None); // no SOL held yet
}

#[test]
fn failed_buy_leaves_state_unchanged() {
    let mut curve = constant_curve(2);
    curve.real_sol_reserves = u64::MAX;
    let before = curve.clone();
    // the SOL counter would overflow, so the whole buy is rejected
    assert!(curve.apply_buy(1).is_none());
    assert_eq!(curve, before);
}

#[test]
fn sell_beyond_original_bucket_fails_closed() {
    let mut curve = constant_curve(2);
    let before = curve.clone();
    assert!(curve.apply_sell(1).is_none()); // would exceed the tradable bucket
    assert_eq!(curve, before);
}

#[test]
fn create_rejects_bad_inputs() {
    let base = constant_params(2);

    let mut p = base.clone();
    p.allocation.curve_reserve = 0;
    p.allocation.platform = 10000;
    assert_eq!(
        BondingCurve::create_from_params(id(1), id(2), id(3), id(4), &p, NOW, 0),
        Err(ContractError::InvalidAllocation)
    );

    let mut p = base.clone();
    p.curve_segments = vec![];
    assert_eq!(
        BondingCurve::create_from_params(id(1), id(2), id(3), id(4), &p, NOW, 0),
        Err(ContractError::InvalidCurveSegments)
    );

    let mut p = base.clone();
    p.start_time = Some(NOW - 1);
    assert_eq!(
        BondingCurve::create_from_params(id(1), id(2), id(3), id(4), &p, NOW, 0),
        Err(ContractError::InvalidStartTime)
    );

    let mut p = base.clone();
    p.sol_launch_threshold = 10001; // the whole curve only ever yields 10000
    assert_eq!(
        BondingCurve::create_from_params(id(1), id(2), id(3), id(4), &p, NOW, 0),
        Err(ContractError::SOLLaunchThresholdTooHigh)
    );

    let mut p = base.clone();
    p.curve_segments = vec![CurveSegmentDef {
        segment_type: SegmentType::Constant(u64::MAX),
        start_supply_bps: 0,
        end_supply_bps: 10000,
    }];
    assert_eq!(
        BondingCurve::create_from_params(id(1), id(2), id(3), id(4), &p, NOW, 0),
        Err(ContractError::NoMaxAttainableSOL)
    );
}

#[test]
fn check_invariants_requires_exact_custody_match() {
    let mut curve = constant_curve(2);
    curve.apply_buy(1000).unwrap();
    assert!(curve.check_invariants(4500, 1000, true).is_ok());
    assert!(curve.check_invariants(4500, 999, true).is_err());
    assert!(curve.check_invariants(4501, 1000, true).is_err());
    // until launch the custodial token account must stay frozen
    assert_eq!(
        curve.check_invariants(4500, 1000, false),
        Err(ContractError::BondingCurveInvariant)
    );
    // a complete curve must be drained and funded past its threshold
    let mut done = curve.clone();
    done.status = bonding_curve::curve::BondingCurveStatus::Complete;
    assert!(done.check_invariants(4500, 1000, true).is_err());
}

#[test]
fn allocation_adopts_caller_shares() {
    let params = AllocationDataParams::default();
    let alloc = AllocationData::from(params);
    assert!(alloc.is_valid());
    assert_eq!(alloc.curve_reserve, params.curve_reserve);
    assert_eq!(alloc.creator, params.creator);
}

#[test]
fn allocation_resolution_loses_less_than_one_token_per_bucket() {
    let alloc = AllocationData::default();
    let total: u64 = 9999;
    let s = BondingCurveSupplyAllocation::new_from_allocation(&alloc, total);
    let sum = s.creator_vested_supply + s.presale_supply + s.bonding_supply + s.pool_supply
        + s.cex_supply + s.launch_brandkit_supply + s.lifetime_brandkit_supply + s.platform_supply;
    assert!(sum <= total);
    assert!(total - sum < 8);
    assert_eq!(s.bonding_supply, 2999);
    assert_eq!(s.creator_vested_supply, 499);
}

#[test]
fn resolved_segments_tile_the_tradable_supply() {
    let defs = vec![
        CurveSegmentDef {
            segment_type: SegmentType::Constant(1),
            start_supply_bps: 0,
            end_supply_bps: 2500,
        },
        CurveSegmentDef {
            segment_type: SegmentType::Linear(2, 0),
            start_supply_bps: 2500,
            end_supply_bps: 10000,
        },
    ];
    assert!(segments_is_valid(&defs));
    let segs = into_segment_data(&defs, 1000);
    assert_eq!(segs.len(), 2);
    assert_eq!(segs[0].start_supply, 0);
    assert_eq!(segs[0].end_supply, 250);
    assert_eq!(segs[1].start_supply, 250);
    assert_eq!(segs[1].end_supply, 1000);

    // gaps, overlaps, and missing cover are all rejected
    let mut bad = defs.clone();
    bad[1].start_supply_bps = 2600;
    assert!(!segments_is_valid(&bad));
    let mut bad = defs.clone();
    bad[1].end_supply_bps = 9999;
    assert!(!segments_is_valid(&bad));
    assert!(!segments_is_valid(&vec![]));
}

#[test]
fn segment_pricing_formulas_are_exact() {
    let constant = CurveSegment {
        segment_type: SegmentType::Constant(7),
        start_supply: 0,
        end_supply: 1000,
    };
    assert_eq!(calculate_segment_price(&constant, 0, 100), Some(700));

    let linear = CurveSegment {
        segment_type: SegmentType::Linear(20000, 0),
        start_supply: 0,
        end_supply: 1000,
    };
    // ((0 * 20000 + 0) + 100 * 20000 / 2) * 100 / 10000
    assert_eq!(calculate_segment_price(&linear, 0, 100), Some(10000));

    let exponential = CurveSegment {
        segment_type: SegmentType::Exponential(2, 3, 5),
        start_supply: 0,
        end_supply: 1000,
    };
    // 2^3 * 100 / 5
    assert_eq!(calculate_segment_price(&exponential, 0, 100), Some(160));
    let by_zero = CurveSegment {
        segment_type: SegmentType::Exponential(2, 3, 0),
        start_supply: 0,
        end_supply: 1000,
    };
    assert_eq!(calculate_segment_price(&by_zero, 0, 100), None);
}

#[test]
fn checked_pow_fails_closed_on_overflow() {
    assert_eq!(checked_pow_u64(2, 10), Some(1024));
    assert_eq!(checked_pow_u64(0, 0), Some(1));
    assert_eq!(checked_pow_u64(0, 5), Some(0));
    assert_eq!(checked_pow_u64(2, 64), None);
}

#[test]
fn linear_inverse_sits_on_the_affordability_boundary() {
    // cost of t tokens bought from position 1000: (2000 - t) * t
    let t = calculate_tokens_for_linear(20000, 0, 1000, 1000, 10000, true);
    assert_eq!(t, 5);
    // five tokens cost 9975, six would cost 11964
    let seg = CurveSegment {
        segment_type: SegmentType::Linear(20000, 0),
        start_supply: 0,
        end_supply: 1000,
    };
    assert_eq!(calculate_segment_price(&seg, 995, 5), Some(9975));
    assert_eq!(calculate_segment_price(&seg, 994, 6), Some(11964));
}

#[test]
fn reserves_are_conserved_across_a_trade_sequence() {
    let mut curve = stepped_curve();
    let bonding = curve.supply_allocation.bonding_supply;
    let b1 = curve.apply_buy(1500).unwrap();
    let s1 = curve.apply_sell(100).unwrap();
    let b2 = curve.apply_buy(90).unwrap();
    let net_tokens_out = b1.token_amount - s1.token_amount + b2.token_amount;
    let net_sol_in = b1.sol_amount - s1.sol_amount + b2.sol_amount;
    assert_eq!(curve.real_token_reserves + net_tokens_out, bonding);
    assert_eq!(curve.real_sol_reserves, net_sol_in);
}

#[test]
fn authorities_change_only_while_inactive() {
    let mut curve = constant_curve(2);
    assert!(curve.set_authorities(id(7), id(8)).is_ok());
    assert_eq!(curve.brand_authority, id(7));
    assert_eq!(curve.cex_authority, id(8));
    curve.status = bonding_curve::curve::BondingCurveStatus::Active;
    assert_eq!(
        curve.set_authorities(id(9), id(9)),
        Err(ContractError::BondingCurveNotInactive)
    );
    assert_eq!(curve.brand_authority, id(7));
}
