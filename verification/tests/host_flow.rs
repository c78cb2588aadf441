use bonding_curve::amm;
use bonding_curve::errors::{ContractError, ProgramError};
use bonding_curve::fee_vault::BondingCurveFeeVault;
use bonding_curve::global::{Global, GlobalAuthorityInput, GlobalSettingsInput, ProgramStatus};
use bonding_curve::ids::AccountId;
use bonding_curve::swap::{SwapParams, SwapOutcome};
use bonding_curve::vesting::{CreatorDistributor, VestingTerms};

const START_TIME: i64 = 1700000000;

fn id(v: u64) -> AccountId {
    AccountId { value: v }
}

fn no_overrides() -> GlobalSettingsInput {
    GlobalSettingsInput {
        initial_token_supply: None,
        initial_real_sol_reserves: None,
        initial_real_token_reserves: None,
        initial_virtual_sol_reserves: None,
        initial_virtual_token_reserves: None,
        sol_launch_threshold: None,
        trade_fee_bps: None,
        created_mint_decimals: None,
        launch_fee_lamports: None,
        status: None,
    }
}

fn fresh_global() -> Global {
    let mut g = Global {
        status: ProgramStatus::Paused,
        initialized: false,
        global_authority: id(0),
        withdraw_authority: id(0),
        initial_virtual_token_reserves: 0,
        initial_virtual_sol_reserves: 0,
        initial_real_token_reserves: 0,
        initial_real_sol_reserves: 0,
        initial_token_supply: 0,
        sol_launch_threshold: 0,
        trade_fee_bps: 0,
        launch_fee_lamports: 0,
        created_mint_decimals: 0,
    };
    let mut params = no_overrides();
    params.trade_fee_bps = Some(100);
    g.initialize(id(42), params).unwrap();
    g
}

fn amm_curve() -> amm::BondingCurve {
    let params = amm::CreateBondingCurveParams {
        name: "test".to_string(),
        symbol: "test".to_string(),
        uri: "test".to_string(),
        start_time: Some(START_TIME),
        token_total_supply: 2000,
        sol_launch_threshold: 70_000_000_000,
        virtual_token_multiplier_bps: 730,
        virtual_sol_reserves: 600,
        allocation: amm::AllocationData::default(),
    };
    let mut bc = amm::BondingCurve::default();
    bc.update_from_params(id(9), &params, START_TIME);
    bc
}

#[test]
fn vested_claim_releases_one_token_per_second() {
    // 2678400 tokens vest over 31 days: one token per second
    let terms = VestingTerms::default();
    assert_eq!(terms.duration, 31 * 86400);
    let dist = CreatorDistributor::new(2678400);
    let start: i64 = 0;
    let now = terms.cliff + 100;
    let (next, released) = dist.claim(start, terms, now).unwrap();
    assert_eq!(released, 100);
    assert_eq!(next.last_distribution, Some(now));
}

#[test]
fn vested_claim_accrues_from_the_last_distribution() {
    let terms = VestingTerms::default();
    let dist = CreatorDistributor::new(2678400);
    let first_claim = terms.cliff + 100;
    let (next, _) = dist.claim(0, terms, first_claim).unwrap();
    // accrual restarts one second past the last claim, so two seconds
    // later exactly one more token has vested
    let (again, released) = next.claim(0, terms, first_claim + 2).unwrap();
    assert_eq!(released, 1);
    assert_eq!(again.last_distribution, Some(first_claim + 2));
}

#[test]
fn vested_claim_rejections() {
    let terms = VestingTerms::default();
    let dist = CreatorDistributor::new(3100);
    assert_eq!(
        dist.claim(100, terms, 50),
        Err(ContractError::CurveNotStarted)
    );
    assert_eq!(
        dist.claim(0, terms, terms.cliff),
        Err(ContractError::CliffNotReached)
    );
    let now = terms.cliff + 100;
    let (next, _) = dist.claim(0, terms, now).unwrap();
    assert_eq!(
        next.claim(0, terms, now),
        Err(ContractError::VestingPeriodNotOver)
    );
}

#[test]
fn global_initialize_starts_running_once() {
    let mut g = fresh_global();
    assert!(g.initialized);
    assert_eq!(g.status, ProgramStatus::Running);
    assert_eq!(g.global_authority, id(42));
    assert_eq!(g.trade_fee_bps, 100);
    assert_eq!(
        g.initialize(id(43), no_overrides()),
        Err(ProgramError::AlreadyInitialized)
    );
}

#[test]
fn global_updates_only_supplied_fields() {
    let mut g = fresh_global();
    let mut params = no_overrides();
    params.sol_launch_threshold = Some(12345);
    g.update_settings(params);
    assert_eq!(g.sol_launch_threshold, 12345);
    assert_eq!(g.trade_fee_bps, 100);
    g.update_authority(GlobalAuthorityInput {
        global_authority: None,
        withdraw_authority: Some(id(7)),
    });
    assert_eq!(g.global_authority, id(42));
    assert_eq!(g.withdraw_authority, id(7));
}

#[test]
fn fee_is_an_exact_basis_point_share() {
    let mut g = fresh_global();
    let mut params = no_overrides();
    params.trade_fee_bps = Some(250);
    g.update_settings(params);
    assert_eq!(g.calculate_fee(12345), 308);
    assert_eq!(g.calculate_fee(0), 0);
}

#[test]
fn swap_buy_moves_reserves_and_charges_fee() {
    let g = fresh_global();
    let mut curve = amm_curve();
    let params = SwapParams { base_in: false, exact_in_amount: 100, min_out_amount: 0 };
    let out = params
        .apply(&g, &mut curve, START_TIME, 1_000_000, 0)
        .unwrap();
    assert_eq!(
        out,
        SwapOutcome { sol_amount: 100, token_amount: 153, fee_lamports: 1, completed: false }
    );
    assert_eq!(curve.real_sol_reserves, 100);
    assert_eq!(curve.real_token_reserves, 1000 - 153);
}

#[test]
fn swap_sell_pays_out_net_of_fee() {
    let g = fresh_global();
    let mut curve = amm_curve();
    let buy = SwapParams { base_in: false, exact_in_amount: 1000, min_out_amount: 0 };
    buy.apply(&g, &mut curve, START_TIME, 1_000_000, 0).unwrap();
    let sell = SwapParams { base_in: true, exact_in_amount: 200, min_out_amount: 0 };
    let out = sell
        .apply(&g, &mut curve, START_TIME, 0, 1_000)
        .unwrap();
    assert_eq!(out.sol_amount, 793);
    assert_eq!(out.fee_lamports, 7);
    assert_eq!(curve.real_sol_reserves, 207);
}

#[test]
fn swap_rejections_leave_the_curve_unchanged() {
    let g = fresh_global();
    let mut curve = amm_curve();
    let before = curve.clone();

    let zero = SwapParams { base_in: false, exact_in_amount: 0, min_out_amount: 0 };
    assert_eq!(
        zero.apply(&g, &mut curve, START_TIME, 1000, 1000),
        Err(ProgramError::MinSwap)
    );
    assert_eq!(curve, before);

    let early = SwapParams { base_in: false, exact_in_amount: 10, min_out_amount: 0 };
    assert_eq!(
        early.apply(&g, &mut curve, START_TIME - 1, 1000, 1000),
        Err(ProgramError::CurveNotStarted)
    );
    assert_eq!(curve, before);

    let greedy = SwapParams { base_in: false, exact_in_amount: 100, min_out_amount: 100_000 };
    assert_eq!(
        greedy.apply(&g, &mut curve, START_TIME, 1_000_000, 0),
        Err(ProgramError::SlippageExceeded)
    );
    assert_eq!(curve, before);

    let broke = SwapParams { base_in: false, exact_in_amount: 100, min_out_amount: 0 };
    assert_eq!(
        broke.apply(&g, &mut curve, START_TIME, 50, 0),
        Err(ProgramError::InsufficientUserSOL)
    );
    assert_eq!(curve, before);

    let tokenless = SwapParams { base_in: true, exact_in_amount: 100, min_out_amount: 0 };
    assert_eq!(
        tokenless.apply(&g, &mut curve, START_TIME, 0, 50),
        Err(ProgramError::InsufficientUserTokens)
    );
    assert_eq!(curve, before);

    let mut done = curve.clone();
    done.complete = true;
    let after_complete = SwapParams { base_in: false, exact_in_amount: 100, min_out_amount: 0 };
    assert_eq!(
        after_complete.apply(&g, &mut done, START_TIME, 1000, 1000),
        Err(ProgramError::BondingCurveComplete)
    );
}

#[test]
fn swap_that_drains_the_curve_completes_it() {
    let g = fresh_global();
    let mut curve = amm_curve();
    let all_in = SwapParams { base_in: false, exact_in_amount: 900000, min_out_amount: 0 };
    let out = all_in
        .apply(&g, &mut curve, START_TIME, u64::MAX, 0)
        .unwrap();
    assert!(out.completed);
    assert!(curve.complete);
    assert_eq!(curve.real_token_reserves, 0);
}

#[test]
fn swap_surfaces_engine_failures() {
    let g = fresh_global();
    let mut curve = amm_curve();
    let before = curve.clone();
    // the virtual SOL counter would overflow: the buy itself fails
    let too_big = SwapParams { base_in: false, exact_in_amount: u64::MAX, min_out_amount: 0 };
    assert_eq!(
        too_big.apply(&g, &mut curve, START_TIME, u64::MAX, 0),
        Err(ProgramError::BuyFailed)
    );
    assert_eq!(curve, before);
    // crediting back more than the payout covers: the sell itself fails
    let too_many = SwapParams { base_in: true, exact_in_amount: 2000, min_out_amount: 0 };
    assert_eq!(
        too_many.apply(&g, &mut curve, START_TIME, 0, u64::MAX),
        Err(ProgramError::SellFailed)
    );
    assert_eq!(curve, before);
}

#[test]
fn vested_claim_fails_closed_on_overflow() {
    let terms = VestingTerms { cliff: 0, duration: 1 };
    let dist = CreatorDistributor::new(u64::MAX);
    // u64::MAX tokens per second for three seconds cannot be represented
    assert_eq!(dist.claim(0, terms, 3), Err(ContractError::ArithmeticFailure));
}

#[test]
fn fee_withdrawal_takes_everything_above_the_rent_floor() {
    let mut vault = BondingCurveFeeVault { last_withdraw_time: None, total_withdrawn: 0 };
    assert_eq!(vault.apply_withdraw(1000, 100, 5), Ok(900));
    assert_eq!(vault.total_withdrawn, 900);
    assert_eq!(vault.last_withdraw_time, Some(5));
    assert_eq!(
        vault.apply_withdraw(100, 100, 6),
        Err(ContractError::NoFeesToWithdraw)
    );
    assert_eq!(vault.total_withdrawn, 900);
}
