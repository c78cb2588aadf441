use bonding_curve::amm::{AllocationData, BondingCurve, CreateBondingCurveParams};
use bonding_curve::ids::AccountId;

const START_TIME: i64 = 1700000000;
const SOL_LAUNCH_THRESHOLD: u64 = 70_000_000_000;

fn test_params() -> CreateBondingCurveParams {
    CreateBondingCurveParams {
        name: "test".to_string(),
        symbol: "test".to_string(),
        uri: "test".to_string(),
        start_time: Some(START_TIME),
        token_total_supply: 2000,
        sol_launch_threshold: SOL_LAUNCH_THRESHOLD,
        virtual_token_multiplier_bps: 730,
        virtual_sol_reserves: 600,
        allocation: AllocationData::default(),
    }
}

fn test_curve() -> BondingCurve {
    let creator = AccountId { value: 0 };
    let params = test_params();
    let mut bc = BondingCurve::default();
    bc.update_from_params(creator, &params, START_TIME);
    bc
}

#[test]
fn bonding_curve_test_buy_and_sell_too_much() {
    let mut curve = test_curve();
    let curve_initial = curve.clone();

    // Attempt to buy more tokens than available in reserves
    let buy_result = curve.apply_buy(2000).unwrap();
    assert_eq!(buy_result.token_amount, 825); // Adjusted based on available tokens
    assert_eq!(buy_result.sol_amount, 2000);
    assert_eq!(
        curve.real_token_reserves,
        curve_initial.real_token_reserves - buy_result.token_amount
    );
    assert_eq!(
        curve.virtual_token_reserves,
        curve_initial.virtual_token_reserves - buy_result.token_amount as u128
    );
    assert_eq!(
        curve.real_sol_reserves,
        curve_initial.real_sol_reserves + buy_result.sol_amount
    );
    assert_eq!(
        curve.virtual_sol_reserves,
        curve_initial.virtual_sol_reserves + buy_result.sol_amount
    );

    // Attempt to sell more tokens than available in reserves
    let sell_result = curve.apply_sell(2000);
    assert!(sell_result.is_none());
}

#[test]
fn bonding_curve_test_apply_sell() {
    let mut curve = test_curve();
    // first apply buy
    curve.apply_buy(1000).unwrap();

    let result = curve.apply_sell(200).unwrap();
    assert_eq!(result.token_amount, 200);
    assert_eq!(result.sol_amount, 793);
    assert_eq!(curve.virtual_token_reserves, 603);
    assert_eq!(curve.real_token_reserves, 530);
    assert_eq!(curve.virtual_sol_reserves, 807);
    assert_eq!(curve.real_sol_reserves, 207);
}

#[test]
fn bonding_curve_test_get_sell_price() {
    let mut curve = test_curve();
    // first apply buy
    curve.apply_buy(1000).unwrap();

    // Edge case: zero tokens
    assert_eq!(curve.get_sell_price(0), None);

    // Normal case
    assert_eq!(curve.get_sell_price(396), Some(1000));

    // Should not exceed real sol reserves
    assert_eq!(curve.get_sell_price(5000), None);
}

#[test]
fn bonding_curve_test_apply_buy() {
    let mut curve = test_curve();
    let curve_initial = curve.clone();

    let purchase_amount = 100;

    let result = curve.apply_buy(purchase_amount).unwrap();
    assert_eq!(result.sol_amount, purchase_amount);
    assert_eq!(result.token_amount, 153);
    assert_eq!(
        curve.virtual_token_reserves,
        curve_initial.virtual_token_reserves - result.token_amount as u128
    );
    assert_eq!(
        curve.real_token_reserves,
        curve_initial.real_token_reserves - result.token_amount
    );
    assert_eq!(curve.virtual_sol_reserves, 700); // Adjusted based on purchased SOL
    assert_eq!(curve.real_sol_reserves, purchase_amount); // Adjusted based on purchased SOL
}

#[test]
fn bonding_curve_test_get_buy_price() {
    let curve = test_curve();
    assert_eq!(curve.get_buy_price(0), None);

    // Normal case
    assert_eq!(curve.get_buy_price(100), Some(62));

    // Edge case: very large token amount
    assert_eq!(curve.get_buy_price(2000), None);
}

#[test]
fn bonding_curve_test_get_tokens_for_buy_sol() {
    let curve = test_curve();

    // Test case 1: Normal case
    assert_eq!(curve.get_tokens_for_buy_sol(100), Some(153));

    // Test case 2: Edge case - zero SOL
    assert_eq!(curve.get_tokens_for_buy_sol(0), None);

    // Test case 4: Large SOL amount (but within limits)
    assert_eq!(curve.get_tokens_for_buy_sol(3000), Some(894));

    // Test case 5: SOL amount that would exceed real token reserves
    assert_eq!(curve.get_tokens_for_buy_sol(900000), Some(curve.bonding_supply));
}

#[test]
fn bonding_curve_test_get_tokens_for_sell_sol() {
    let mut curve = test_curve();
    // first apply buy
    curve.apply_buy(1000).unwrap();

    // Test case 1: Normal case
    assert_eq!(curve.get_tokens_for_sell_sol(100), Some(25));

    // Test case 2: Edge case - zero SOL
    assert_eq!(curve.get_tokens_for_sell_sol(0), None);

    // Test case 3: Edge case - more SOL than virtual reserves
    assert_eq!(curve.get_tokens_for_sell_sol(1001), None);

    // Test case 4: Large SOL amount (but within limits)
    assert_eq!(curve.get_tokens_for_sell_sol(500), Some(125));
}

#[test]
fn amm_failed_sell_leaves_state_unchanged() {
    let mut curve = test_curve();
    curve.apply_buy(1000).unwrap();
    let before = curve.clone();
    // crediting 2000 tokens back would underflow the virtual SOL counter
    assert!(curve.apply_sell(2000).is_none());
    assert_eq!(curve, before);
}

#[test]
fn amm_default_allocation_shares() {
    let a = AllocationData::default();
    assert!(a.is_valid());
    assert_eq!(a.pool_reserve, 5000);
    assert_eq!(
        a.dev + a.cex + a.launch_brandkit + a.lifetime_brandkit + a.platform + a.presale
            + a.pool_reserve,
        10000
    );
}

#[test]
fn amm_max_attainable_sol_adds_reserves() {
    let curve = test_curve();
    // rise needed to drain all 1000 real tokens: virtual reserves allow it
    let max = curve.get_max_attainable_sol().unwrap();
    let rise = curve.get_buy_price(curve.real_token_reserves).unwrap();
    assert_eq!(max, curve.real_sol_reserves + rise);
}

#[test]
fn amm_check_invariants_matches_counters() {
    let mut curve = test_curve();
    curve.apply_buy(1000).unwrap();
    assert!(curve
        .check_invariants(curve.real_sol_reserves, curve.real_token_reserves)
        .is_ok());
    assert!(curve
        .check_invariants(curve.real_sol_reserves + 1, curve.real_token_reserves)
        .is_err());
    assert!(curve
        .check_invariants(curve.real_sol_reserves, curve.real_token_reserves + 1)
        .is_err());
    let mut done = curve.clone();
    done.complete = true;
    assert!(done
        .check_invariants(done.real_sol_reserves, done.real_token_reserves)
        .is_err());
}
