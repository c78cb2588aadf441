//! The swap state machine: validates a trade request, applies it to a
//! constant-product curve, enforces slippage and funding limits, and
//! reports the transfers the host must perform. The host performs the
//! transfers and the custody invariant check; every decision is made here.

use vstd::prelude::*;

use crate::amm::{spec_apply_buy, spec_apply_sell, BondingCurve};
use crate::errors::ProgramError;
use crate::global::{spec_fee, Global};
use crate::math::BASIS_POINTS_DIVISOR;

verus! {

/// A trade request: `base_in` sells tokens for SOL, otherwise SOL buys
/// tokens; `exact_in_amount` is what the user puts in, and the trade fails
/// rather than hand back less than `min_out_amount`.
#[derive(Clone, Copy, Debug, PartialEq, Eq, Structural)]
pub struct SwapParams {
    pub base_in: bool,
    pub exact_in_amount: u64,
    pub min_out_amount: u64,
}

/// A decided trade: the amounts that moved, the fee owed to the program,
/// and whether the curve completed (drained its tradable tokens) with this
/// trade.
#[derive(Clone, Copy, Debug, PartialEq, Eq, Structural)]
pub struct SwapOutcome {
    pub sol_amount: u64,
    pub token_amount: u64,
    pub fee_lamports: u64,
    pub completed: bool,
}

impl SwapParams {
    /// Decides one swap against `curve` at time `now`, given the user's SOL
    /// and token balances as the host observed them. All or nothing: on any
    /// rejection the curve is unchanged.
    pub fn apply(
        &self,
        global: &Global,
        curve: &mut BondingCurve,
        now: i64,
        user_sol_balance: u64,
        user_token_balance: u64,
    ) -> (r: Result<SwapOutcome, ProgramError>)
        requires
            global.trade_fee_bps <= BASIS_POINTS_DIVISOR,
        ensures
            r is Err ==> *final(curve) == *old(curve),
            old(curve).complete ==> r == Err::<SwapOutcome, _>(ProgramError::BondingCurveComplete),
            !old(curve).complete && now < old(curve).start_time ==> r == Err::<SwapOutcome, _>(
                ProgramError::CurveNotStarted,
            ),
            !old(curve).complete && now >= old(curve).start_time && self.exact_in_amount == 0
                ==> r == Err::<SwapOutcome, _>(ProgramError::MinSwap),
            !old(curve).complete && now >= old(curve).start_time && self.exact_in_amount > 0
                && self.base_in ==> {
                if user_token_balance < self.exact_in_amount {
                    r == Err::<SwapOutcome, _>(ProgramError::InsufficientUserTokens)
                } else {
                    match spec_apply_sell(*old(curve), self.exact_in_amount) {
                        None => r == Err::<SwapOutcome, _>(ProgramError::SellFailed),
                        Some((next, sr)) => {
                            let fee = spec_fee(global.trade_fee_bps, sr.sol_amount);
                            if sr.sol_amount - fee < self.min_out_amount {
                                r == Err::<SwapOutcome, _>(ProgramError::SlippageExceeded)
                            } else {
                                &&& r matches Ok(out)
                                &&& out.sol_amount == sr.sol_amount
                                &&& out.token_amount == sr.token_amount
                                &&& out.fee_lamports == fee
                                &&& out.completed == (next.real_token_reserves == 0)
                                &&& *final(curve) == (BondingCurve {
                                    complete: out.completed || next.complete,
                                    ..next
                                })
                            }
                        },
                    }
                }
            },
            !old(curve).complete && now >= old(curve).start_time && self.exact_in_amount > 0
                && !self.base_in ==> {
                match spec_apply_buy(*old(curve), self.exact_in_amount) {
                    None => r == Err::<SwapOutcome, _>(ProgramError::BuyFailed),
                    Some((next, br)) => {
                        let fee = spec_fee(global.trade_fee_bps, self.exact_in_amount);
                        if br.token_amount < self.min_out_amount {
                            r == Err::<SwapOutcome, _>(ProgramError::SlippageExceeded)
                        } else if user_sol_balance < br.sol_amount + fee {
                            r == Err::<SwapOutcome, _>(ProgramError::InsufficientUserSOL)
                        } else {
                            &&& r matches Ok(out)
                            &&& out.sol_amount == br.sol_amount
                            &&& out.token_amount == br.token_amount
                            &&& out.fee_lamports == fee
                            &&& out.completed == (next.real_token_reserves == 0)
                            &&& *final(curve) == (BondingCurve {
                                complete: out.completed || next.complete,
                                ..next
                            })
                        }
                    },
                }
            },
    {
        if curve.complete {
            return Err(ProgramError::BondingCurveComplete);
        }
        if !curve.is_started(now) {
            return Err(ProgramError::CurveNotStarted);
        }
        if self.exact_in_amount == 0 {
            return Err(ProgramError::MinSwap);
        }
        let saved_virtual_token = curve.virtual_token_reserves;
        let saved_real_token = curve.real_token_reserves;
        let saved_virtual_sol = curve.virtual_sol_reserves;
        let saved_real_sol = curve.real_sol_reserves;
        if self.base_in {
            if user_token_balance < self.exact_in_amount {
                return Err(ProgramError::InsufficientUserTokens);
            }
            let sell_result = match curve.apply_sell(self.exact_in_amount) {
                Some(sr) => sr,
                None => {
                    return Err(ProgramError::SellFailed);
                },
            };
            let fee_lamports = global.calculate_fee(sell_result.sol_amount);
            if sell_result.sol_amount - fee_lamports < self.min_out_amount {
                curve.virtual_token_reserves = saved_virtual_token;
                curve.real_token_reserves = saved_real_token;
                curve.virtual_sol_reserves = saved_virtual_sol;
                curve.real_sol_reserves = saved_real_sol;
                return Err(ProgramError::SlippageExceeded);
            }
            let completed = curve.real_token_reserves == 0;
            if completed {
                curve.complete = true;
            }
            Ok(
                SwapOutcome {
                    sol_amount: sell_result.sol_amount,
                    token_amount: sell_result.token_amount,
                    fee_lamports,
                    completed,
                },
            )
        } else {
            let buy_result = match curve.apply_buy(self.exact_in_amount) {
                Some(br) => br,
                None => {
                    return Err(ProgramError::BuyFailed);
                },
            };
            let fee_lamports = global.calculate_fee(self.exact_in_amount);
            if buy_result.token_amount < self.min_out_amount {
                curve.virtual_token_reserves = saved_virtual_token;
                curve.real_token_reserves = saved_real_token;
                curve.virtual_sol_reserves = saved_virtual_sol;
                curve.real_sol_reserves = saved_real_sol;
                return Err(ProgramError::SlippageExceeded);
            }
            let affordable = match buy_result.sol_amount.checked_add(fee_lamports) {
                Some(with_fee) => user_sol_balance >= with_fee,
                None => false,
            };
            if !affordable {
                curve.virtual_token_reserves = saved_virtual_token;
                curve.real_token_reserves = saved_real_token;
                curve.virtual_sol_reserves = saved_virtual_sol;
                curve.real_sol_reserves = saved_real_sol;
                return Err(ProgramError::InsufficientUserSOL);
            }
            let completed = curve.real_token_reserves == 0;
            if completed {
                curve.complete = true;
            }
            Ok(
                SwapOutcome {
                    sol_amount: buy_result.sol_amount,
                    token_amount: buy_result.token_amount,
                    fee_lamports,
                    completed,
                },
            )
        }
    }
}

} // verus!
