//! The constant-product pricing strategy: an alternative to the segmented
//! curve that shapes prices with virtual SOL/token reserves and the
//! invariant product `virtual_sol * virtual_token`. Selected at curve
//! creation and fixed for the curve's lifetime.

use vstd::prelude::*;

use crate::curve::{BuyResult, SellResult};
use crate::errors::ProgramError;
use crate::ids::AccountId;
use crate::math::{bps_mul, spec_bps_mul, BASIS_POINTS_DIVISOR};

verus! {

/// Allocation shares for the constant-product strategy, in basis points:
/// the pool share doubles as the tradable bonding bucket.
#[derive(Clone, Copy, Debug, PartialEq, Eq, Structural)]
pub struct AllocationData {
    pub dev: u64,
    pub cex: u64,
    pub launch_brandkit: u64,
    pub lifetime_brandkit: u64,
    pub platform: u64,
    pub presale: u64,
    pub pool_reserve: u64,
}

/// The sum of all seven shares.
pub open spec fn spec_allocation_sum(a: AllocationData) -> int {
    a.dev + a.cex + a.launch_brandkit + a.lifetime_brandkit + a.platform + a.presale
        + a.pool_reserve
}

/// Shares must sum to exactly one whole and the tradable pool share must be
/// positive.
pub open spec fn spec_allocation_valid(a: AllocationData) -> bool {
    &&& spec_allocation_sum(a) == BASIS_POINTS_DIVISOR
    &&& a.pool_reserve > 0
}

impl Default for AllocationData {
    /// Platform defaults: 10% each for dev, CEX, both brandkit buckets and
    /// platform, no presale, half the supply tradable.
    fn default() -> (r: Self)
        ensures
            r == (AllocationData {
                dev: 1000u64,
                cex: 1000u64,
                launch_brandkit: 1000u64,
                lifetime_brandkit: 1000u64,
                platform: 1000u64,
                presale: 0u64,
                pool_reserve: 5000u64,
            }),
            spec_allocation_valid(r),
    {
        AllocationData {
            dev: 1000,
            cex: 1000,
            launch_brandkit: 1000,
            lifetime_brandkit: 1000,
            platform: 1000,
            presale: 0,
            pool_reserve: 5000,
        }
    }
}

impl AllocationData {
    /// Decides [`spec_allocation_valid`]; the sum is taken in 128-bit width.
    pub fn is_valid(&self) -> (r: bool)
        ensures
            r == spec_allocation_valid(*self),
    {
        let sum: u128 = self.dev as u128 + self.cex as u128 + self.launch_brandkit as u128
            + self.lifetime_brandkit as u128 + self.platform as u128 + self.presale as u128
            + self.pool_reserve as u128;
        sum == BASIS_POINTS_DIVISOR as u128 && self.pool_reserve > 0
    }
}

/// Creation parameters for a constant-product curve. The virtual token
/// multiplier is in basis points: the virtual token reserves start at
/// `bonding_supply * (10000 + multiplier) / 10000`.
#[derive(Clone, Debug)]
pub struct CreateBondingCurveParams {
    pub name: String,
    pub symbol: String,
    pub uri: String,
    pub start_time: Option<i64>,
    pub token_total_supply: u64,
    pub sol_launch_threshold: u64,
    pub virtual_token_multiplier_bps: u64,
    pub virtual_sol_reserves: u64,
    pub allocation: AllocationData,
}

/// The state of one constant-product curve.
#[derive(Clone, Debug, PartialEq)]
pub struct BondingCurve {
    pub creator: AccountId,
    pub virtual_token_multiplier_bps: u64,
    pub virtual_sol_reserves: u64,
    pub virtual_token_reserves: u128,
    pub initial_virtual_token_reserves: u128,
    pub real_sol_reserves: u64,
    pub real_token_reserves: u64,
    pub token_total_supply: u64,
    pub presale_supply: u64,
    pub bonding_supply: u64,
    pub cex_supply: u64,
    pub launch_brandkit_supply: u64,
    pub lifetime_brandkit_supply: u64,
    pub platform_supply: u64,
    pub sol_launch_threshold: u64,
    pub start_time: i64,
    pub complete: bool,
    pub allocation: AllocationData,
}

/// SOL needed to buy `tokens`: the rise in virtual SOL reserves that keeps
/// the reserve product constant, rounded up by one lamport. Fails on a zero
/// request, a request beyond the virtual reserves, or any overflow.
pub open spec fn spec_buy_price(bc: BondingCurve, tokens: u64) -> Option<u64> {
    if tokens == 0 || tokens > bc.virtual_token_reserves {
        None
    } else if bc.virtual_sol_reserves * bc.virtual_token_reserves > u128::MAX {
        None
    } else if bc.virtual_token_reserves == tokens {
        None
    } else {
        let product = bc.virtual_sol_reserves * bc.virtual_token_reserves;
        let new_virtual_sol = product / (bc.virtual_token_reserves - tokens) + 1;
        if new_virtual_sol > u128::MAX {
            None
        } else if new_virtual_sol < bc.virtual_sol_reserves {
            None
        } else if new_virtual_sol - bc.virtual_sol_reserves > u64::MAX {
            None
        } else {
            Some((new_virtual_sol - bc.virtual_sol_reserves) as u64)
        }
    }
}

/// SOL paid out for selling `tokens`: the proportional share of the virtual
/// SOL reserves, scaled through the initial virtual token reserves, capped
/// at the SOL the curve really holds.
pub open spec fn spec_sell_price(bc: BondingCurve, tokens: u64) -> Option<u64> {
    if tokens == 0 || tokens > bc.virtual_token_reserves {
        None
    } else if tokens * bc.initial_virtual_token_reserves > u128::MAX {
        None
    } else if bc.virtual_token_reserves == 0 {
        None
    } else {
        let proportion = (tokens * bc.initial_virtual_token_reserves) / (
        bc.virtual_token_reserves as int);
        if bc.virtual_sol_reserves * proportion > u128::MAX {
            None
        } else if bc.initial_virtual_token_reserves == 0 {
            None
        } else {
            let sol = (bc.virtual_sol_reserves * proportion) / (
            bc.initial_virtual_token_reserves as int);
            if sol > u64::MAX {
                None
            } else if sol > bc.real_sol_reserves {
                Some(bc.real_sol_reserves)
            } else {
                Some(sol as u64)
            }
        }
    }
}

/// Tokens received for `sol` paid in: the fall in virtual token reserves
/// that keeps the product constant, less one token of rounding, capped at
/// the tokens the curve really holds.
pub open spec fn spec_tokens_for_buy_sol(bc: BondingCurve, sol: u64) -> Option<u64> {
    if sol == 0 {
        None
    } else if bc.virtual_sol_reserves * bc.virtual_token_reserves > u128::MAX {
        None
    } else {
        let product = bc.virtual_sol_reserves * bc.virtual_token_reserves;
        let new_virtual_token = product / (bc.virtual_sol_reserves + sol) + 1;
        if new_virtual_token > u128::MAX {
            None
        } else if bc.virtual_token_reserves < new_virtual_token {
            None
        } else {
            let received = bc.virtual_token_reserves - new_virtual_token;
            if received > u64::MAX {
                None
            } else if received > bc.real_token_reserves {
                Some(bc.real_token_reserves)
            } else {
                Some(received as u64)
            }
        }
    }
}

/// Tokens taken back for paying out `sol`: the proportional share of the
/// virtual token reserves. Fails on a zero amount or one beyond the real
/// SOL reserves.
pub open spec fn spec_tokens_for_sell_sol(bc: BondingCurve, sol: u64) -> Option<u64> {
    if sol == 0 || sol > bc.real_sol_reserves {
        None
    } else if sol * bc.initial_virtual_token_reserves > u128::MAX {
        None
    } else if bc.virtual_sol_reserves == 0 {
        None
    } else {
        let proportion = (sol * bc.initial_virtual_token_reserves) / (
        bc.virtual_sol_reserves as int);
        if bc.virtual_token_reserves * proportion > u128::MAX {
            None
        } else if bc.initial_virtual_token_reserves == 0 {
            None
        } else {
            let received = (bc.virtual_token_reserves * proportion) / (
            bc.initial_virtual_token_reserves as int);
            if received > u64::MAX {
                None
            } else {
                Some(received as u64)
            }
        }
    }
}

/// A whole successful buy: the received tokens and the four counters moved
/// together, all or nothing.
pub open spec fn spec_apply_buy(bc: BondingCurve, sol: u64) -> Option<(BondingCurve, BuyResult)> {
    match spec_tokens_for_buy_sol(bc, sol) {
        None => None,
        Some(tokens) => {
            if bc.virtual_token_reserves < tokens {
                None
            } else if bc.real_token_reserves < tokens {
                None
            } else if bc.virtual_sol_reserves + sol > u64::MAX {
                None
            } else if bc.real_sol_reserves + sol > u64::MAX {
                None
            } else {
                Some(
                    (
                        BondingCurve {
                            virtual_token_reserves: (bc.virtual_token_reserves - tokens) as u128,
                            real_token_reserves: (bc.real_token_reserves - tokens) as u64,
                            virtual_sol_reserves: (bc.virtual_sol_reserves + sol) as u64,
                            real_sol_reserves: (bc.real_sol_reserves + sol) as u64,
                            ..bc
                        },
                        BuyResult { token_amount: tokens, sol_amount: sol },
                    ),
                )
            }
        },
    }
}

/// A whole successful sell: the payout and the four counters moved
/// together, all or nothing.
pub open spec fn spec_apply_sell(bc: BondingCurve, tokens: u64) -> Option<
    (BondingCurve, SellResult),
> {
    if bc.virtual_token_reserves + tokens > u128::MAX {
        None
    } else if bc.real_token_reserves + tokens > u64::MAX {
        None
    } else {
        match spec_sell_price(bc, tokens) {
            None => None,
            Some(sol) => {
                if bc.virtual_sol_reserves < sol {
                    None
                } else {
                    Some(
                        (
                            BondingCurve {
                                virtual_token_reserves: (bc.virtual_token_reserves
                                    + tokens) as u128,
                                real_token_reserves: (bc.real_token_reserves + tokens) as u64,
                                virtual_sol_reserves: (bc.virtual_sol_reserves - sol) as u64,
                                real_sol_reserves: (bc.real_sol_reserves - sol) as u64,
                                ..bc
                            },
                            SellResult { token_amount: tokens, sol_amount: sol },
                        ),
                    )
                }
            },
        }
    }
}

/// The curve state that a set of creation parameters denotes at time `now`.
pub open spec fn spec_curve_from_params(
    creator: AccountId,
    params: CreateBondingCurveParams,
    now: i64,
) -> BondingCurve {
    let a = params.allocation;
    let total = params.token_total_supply;
    let bonding = spec_bps_mul(a.pool_reserve, total);
    let virtual_tokens = (bonding * (BASIS_POINTS_DIVISOR + params.virtual_token_multiplier_bps))
        / (BASIS_POINTS_DIVISOR as int);
    BondingCurve {
        creator,
        virtual_token_multiplier_bps: params.virtual_token_multiplier_bps,
        virtual_sol_reserves: params.virtual_sol_reserves,
        virtual_token_reserves: virtual_tokens as u128,
        initial_virtual_token_reserves: virtual_tokens as u128,
        real_sol_reserves: 0u64,
        real_token_reserves: bonding as u64,
        token_total_supply: total,
        presale_supply: spec_bps_mul(a.presale, total) as u64,
        bonding_supply: bonding as u64,
        cex_supply: spec_bps_mul(a.cex, total) as u64,
        launch_brandkit_supply: spec_bps_mul(a.launch_brandkit, total) as u64,
        lifetime_brandkit_supply: spec_bps_mul(a.lifetime_brandkit, total) as u64,
        platform_supply: spec_bps_mul(a.platform, total) as u64,
        sol_launch_threshold: params.sol_launch_threshold,
        start_time: match params.start_time {
            Some(s) => s,
            None => now,
        },
        complete: false,
        allocation: a,
    }
}

/// Every share of a valid allocation is at most the whole.
proof fn lemma_valid_shares_bounded(a: AllocationData)
    requires
        spec_allocation_valid(a),
    ensures
        a.dev <= BASIS_POINTS_DIVISOR,
        a.cex <= BASIS_POINTS_DIVISOR,
        a.launch_brandkit <= BASIS_POINTS_DIVISOR,
        a.lifetime_brandkit <= BASIS_POINTS_DIVISOR,
        a.platform <= BASIS_POINTS_DIVISOR,
        a.presale <= BASIS_POINTS_DIVISOR,
        a.pool_reserve <= BASIS_POINTS_DIVISOR,
{
}

impl Default for BondingCurve {
    /// An empty curve, to be filled by [`BondingCurve::update_from_params`].
    fn default() -> (r: Self)
        ensures
            r.real_sol_reserves == 0,
            r.real_token_reserves == 0,
            r.complete == false,
    {
        BondingCurve {
            creator: AccountId { value: 0 },
            virtual_token_multiplier_bps: 0,
            virtual_sol_reserves: 0,
            virtual_token_reserves: 0,
            initial_virtual_token_reserves: 0,
            real_sol_reserves: 0,
            real_token_reserves: 0,
            token_total_supply: 0,
            presale_supply: 0,
            bonding_supply: 0,
            cex_supply: 0,
            launch_brandkit_supply: 0,
            lifetime_brandkit_supply: 0,
            platform_supply: 0,
            sol_launch_threshold: 0,
            start_time: 0,
            complete: false,
            allocation: AllocationData {
                dev: 0,
                cex: 0,
                launch_brandkit: 0,
                lifetime_brandkit: 0,
                platform: 0,
                presale: 0,
                pool_reserve: 0,
            },
        }
    }
}

impl BondingCurve {
    /// Rebuilds the whole state from creation parameters: supply buckets are
    /// each share of the total, rounded down, the tradable bucket seeds the
    /// real token reserves, and the virtual token reserves inflate it by the
    /// multiplier.
    pub fn update_from_params(
        &mut self,
        creator: AccountId,
        params: &CreateBondingCurveParams,
        now: i64,
    )
        requires
            spec_allocation_valid(params.allocation),
            params.virtual_token_multiplier_bps <= u64::MAX - BASIS_POINTS_DIVISOR,
        ensures
            *final(self) == spec_curve_from_params(creator, *params, now),
    {
        let start_time = match params.start_time {
            Some(s) => s,
            None => now,
        };
        let total = params.token_total_supply;
        let a = params.allocation;
        proof {
            lemma_valid_shares_bounded(a);
            crate::math::lemma_bps_mul_le_amount(a.presale, total);
            crate::math::lemma_bps_mul_le_amount(a.pool_reserve, total);
            crate::math::lemma_bps_mul_le_amount(a.cex, total);
            crate::math::lemma_bps_mul_le_amount(a.launch_brandkit, total);
            crate::math::lemma_bps_mul_le_amount(a.lifetime_brandkit, total);
            crate::math::lemma_bps_mul_le_amount(a.platform, total);
        }
        let presale_supply = bps_mul(a.presale, total).unwrap();
        let bonding_supply = bps_mul(a.pool_reserve, total).unwrap();
        let cex_supply = bps_mul(a.cex, total).unwrap();
        let launch_brandkit_supply = bps_mul(a.launch_brandkit, total).unwrap();
        let lifetime_brandkit_supply = bps_mul(a.lifetime_brandkit, total).unwrap();
        let platform_supply = bps_mul(a.platform, total).unwrap();
        proof {
            assert((bonding_supply as u128) * ((BASIS_POINTS_DIVISOR as u128)
                + (params.virtual_token_multiplier_bps as u128)) <= (u64::MAX as u128) * (u64::MAX
                as u128)) by (nonlinear_arith)
                requires
                    bonding_supply <= u64::MAX,
                    (BASIS_POINTS_DIVISOR as u128) + (params.virtual_token_multiplier_bps as u128)
                        <= u64::MAX as u128,
            ;
        }
        let virtual_token_reserves: u128 = (bonding_supply as u128) * ((BASIS_POINTS_DIVISOR
            as u128) + (params.virtual_token_multiplier_bps as u128)) / (BASIS_POINTS_DIVISOR
            as u128);
        *self = BondingCurve {
            creator,
            virtual_token_multiplier_bps: params.virtual_token_multiplier_bps,
            virtual_sol_reserves: params.virtual_sol_reserves,
            virtual_token_reserves,
            initial_virtual_token_reserves: virtual_token_reserves,
            real_sol_reserves: 0,
            real_token_reserves: bonding_supply,
            token_total_supply: total,
            presale_supply,
            bonding_supply,
            cex_supply,
            launch_brandkit_supply,
            lifetime_brandkit_supply,
            platform_supply,
            sol_launch_threshold: params.sol_launch_threshold,
            start_time,
            complete: false,
            allocation: a,
        };
    }

    /// Whether trading has started at time `now`.
    pub fn is_started(&self, now: i64) -> (r: bool)
        ensures
            r == (now >= self.start_time),
    {
        now >= self.start_time
    }

    /// SOL needed to buy `tokens`; see [`spec_buy_price`].
    pub fn get_buy_price(&self, tokens: u64) -> (r: Option<u64>)
        ensures
            r == spec_buy_price(*self, tokens),
    {
        if tokens == 0 || tokens as u128 > self.virtual_token_reserves {
            return None;
        }
        let product = match (self.virtual_sol_reserves as u128).checked_mul(
            self.virtual_token_reserves,
        ) {
            Some(p) => p,
            None => {
                return None;
            },
        };
        let new_virtual_token = self.virtual_token_reserves - tokens as u128;
        if new_virtual_token == 0 {
            return None;
        }
        let new_virtual_sol = match (product / new_virtual_token).checked_add(1) {
            Some(v) => v,
            None => {
                return None;
            },
        };
        if new_virtual_sol < self.virtual_sol_reserves as u128 {
            return None;
        }
        let amount = new_virtual_sol - self.virtual_sol_reserves as u128;
        if amount > u64::MAX as u128 {
            return None;
        }
        Some(amount as u64)
    }

    /// SOL paid out for selling `tokens`; see [`spec_sell_price`].
    pub fn get_sell_price(&self, tokens: u64) -> (r: Option<u64>)
        ensures
            r == spec_sell_price(*self, tokens),
    {
        if tokens == 0 || tokens as u128 > self.virtual_token_reserves {
            return None;
        }
        let scaling_factor = self.initial_virtual_token_reserves;
        let scaled_tokens = match (tokens as u128).checked_mul(scaling_factor) {
            Some(v) => v,
            None => {
                return None;
            },
        };
        let proportion = scaled_tokens / self.virtual_token_reserves;
        let scaled_sol = match (self.virtual_sol_reserves as u128).checked_mul(proportion) {
            Some(v) => v,
            None => {
                return None;
            },
        };
        if scaling_factor == 0 {
            return None;
        }
        let sol = scaled_sol / scaling_factor;
        if sol > u64::MAX as u128 {
            return None;
        }
        if sol as u64 > self.real_sol_reserves {
            Some(self.real_sol_reserves)
        } else {
            Some(sol as u64)
        }
    }

    /// Tokens received for `sol` paid in; see [`spec_tokens_for_buy_sol`].
    pub fn get_tokens_for_buy_sol(&self, sol_amount: u64) -> (r: Option<u64>)
        ensures
            r == spec_tokens_for_buy_sol(*self, sol_amount),
    {
        if sol_amount == 0 {
            return None;
        }
        let product = match (self.virtual_sol_reserves as u128).checked_mul(
            self.virtual_token_reserves,
        ) {
            Some(p) => p,
            None => {
                return None;
            },
        };
        let new_virtual_sol = self.virtual_sol_reserves as u128 + sol_amount as u128;
        let new_virtual_token = match (product / new_virtual_sol).checked_add(1) {
            Some(v) => v,
            None => {
                return None;
            },
        };
        if self.virtual_token_reserves < new_virtual_token {
            return None;
        }
        let received = self.virtual_token_reserves - new_virtual_token;
        if received > u64::MAX as u128 {
            return None;
        }
        if received as u64 > self.real_token_reserves {
            Some(self.real_token_reserves)
        } else {
            Some(received as u64)
        }
    }

    /// Tokens taken back for paying out `sol`; see
    /// [`spec_tokens_for_sell_sol`].
    pub fn get_tokens_for_sell_sol(&self, sol_amount: u64) -> (r: Option<u64>)
        ensures
            r == spec_tokens_for_sell_sol(*self, sol_amount),
    {
        if sol_amount == 0 || sol_amount > self.real_sol_reserves {
            return None;
        }
        let scaling_factor = self.initial_virtual_token_reserves;
        let scaled_sol = match (sol_amount as u128).checked_mul(scaling_factor) {
            Some(v) => v,
            None => {
                return None;
            },
        };
        if self.virtual_sol_reserves == 0 {
            return None;
        }
        let proportion = scaled_sol / self.virtual_sol_reserves as u128;
        let scaled_tokens = match self.virtual_token_reserves.checked_mul(proportion) {
            Some(v) => v,
            None => {
                return None;
            },
        };
        if scaling_factor == 0 {
            return None;
        }
        let received = scaled_tokens / scaling_factor;
        if received > u64::MAX as u128 {
            return None;
        }
        Some(received as u64)
    }

    /// Applies a buy of `sol_amount`, moving all four reserve counters
    /// together; on any failure the state is unchanged.
    pub fn apply_buy(&mut self, sol_amount: u64) -> (r: Option<BuyResult>)
        ensures
            r is None ==> *final(self) == *old(self) && spec_apply_buy(*old(self), sol_amount)
                is None,
            r matches Some(br) ==> spec_apply_buy(*old(self), sol_amount) == Some(
                (*final(self), br),
            ),
    {
        let final_token_amount = match self.get_tokens_for_buy_sol(sol_amount) {
            Some(t) => t,
            None => {
                return None;
            },
        };
        if self.virtual_token_reserves < final_token_amount as u128 {
            return None;
        }
        let new_virtual_token = self.virtual_token_reserves - final_token_amount as u128;
        if self.real_token_reserves < final_token_amount {
            return None;
        }
        let new_real_token = self.real_token_reserves - final_token_amount;
        let new_virtual_sol = match self.virtual_sol_reserves.checked_add(sol_amount) {
            Some(v) => v,
            None => {
                return None;
            },
        };
        let new_real_sol = match self.real_sol_reserves.checked_add(sol_amount) {
            Some(v) => v,
            None => {
                return None;
            },
        };
        self.virtual_token_reserves = new_virtual_token;
        self.real_token_reserves = new_real_token;
        self.virtual_sol_reserves = new_virtual_sol;
        self.real_sol_reserves = new_real_sol;
        Some(BuyResult { token_amount: final_token_amount, sol_amount })
    }

    /// Applies a sell of `token_amount`, moving all four reserve counters
    /// together; on any failure the state is unchanged.
    pub fn apply_sell(&mut self, token_amount: u64) -> (r: Option<SellResult>)
        ensures
            r is None ==> *final(self) == *old(self) && spec_apply_sell(*old(self), token_amount)
                is None,
            r matches Some(sr) ==> spec_apply_sell(*old(self), token_amount) == Some(
                (*final(self), sr),
            ),
    {
        let new_virtual_token = match self.virtual_token_reserves.checked_add(
            token_amount as u128,
        ) {
            Some(v) => v,
            None => {
                return None;
            },
        };
        let new_real_token = match self.real_token_reserves.checked_add(token_amount) {
            Some(v) => v,
            None => {
                return None;
            },
        };
        let sol_amount = match self.get_sell_price(token_amount) {
            Some(s) => s,
            None => {
                return None;
            },
        };
        if self.virtual_sol_reserves < sol_amount {
            return None;
        }
        let new_virtual_sol = self.virtual_sol_reserves - sol_amount;
        let new_real_sol = self.real_sol_reserves - sol_amount;
        self.virtual_token_reserves = new_virtual_token;
        self.real_token_reserves = new_real_token;
        self.virtual_sol_reserves = new_virtual_sol;
        self.real_sol_reserves = new_real_sol;
        Some(SellResult { token_amount, sol_amount })
    }

    /// The most SOL the curve can ever accumulate from here: what it holds,
    /// plus the rise in virtual SOL reserves were every remaining real
    /// token bought.
    pub fn get_max_attainable_sol(&self) -> (r: Option<u64>)
        ensures
            self.real_token_reserves == 0 ==> r == Some(self.real_sol_reserves),
            self.real_token_reserves > 0 ==> r == ({
                match spec_buy_price(*self, self.real_token_reserves) {
                    None => None::<u64>,
                    Some(rise) => if self.real_sol_reserves + rise <= u64::MAX {
                        Some((self.real_sol_reserves + rise) as u64)
                    } else {
                        None
                    },
                }
            }),
    {
        if self.real_token_reserves == 0 {
            return Some(self.real_sol_reserves);
        }
        let rise = match self.get_buy_price(self.real_token_reserves) {
            Some(v) => v,
            None => {
                return None;
            },
        };
        self.real_sol_reserves.checked_add(rise)
    }

    /// Cross-checks the reserve counters against externally observed
    /// custodial balances: the SOL balance net of the account's rent
    /// reserve, and the token balance; the virtual reserves must stay
    /// positive, and a complete curve must be drained of tokens. Any
    /// violation is fatal to the enclosing operation.
    pub fn check_invariants(&self, lamports: u64, tkn_balance: u64) -> (r: Result<
        (),
        ProgramError,
    >)
        ensures
            r is Ok <==> {
                &&& lamports == self.real_sol_reserves
                &&& self.virtual_sol_reserves > 0
                &&& self.virtual_token_reserves > 0
                &&& tkn_balance == self.real_token_reserves
                &&& (self.complete ==> self.real_token_reserves == 0)
            },
            r is Err ==> r == Err::<(), ProgramError>(ProgramError::BondingCurveInvariant),
    {
        if lamports != self.real_sol_reserves {
            return Err(ProgramError::BondingCurveInvariant);
        }
        if self.virtual_sol_reserves == 0 {
            return Err(ProgramError::BondingCurveInvariant);
        }
        if self.virtual_token_reserves == 0 {
            return Err(ProgramError::BondingCurveInvariant);
        }
        if tkn_balance != self.real_token_reserves {
            return Err(ProgramError::BondingCurveInvariant);
        }
        if self.complete && self.real_token_reserves != 0 {
            return Err(ProgramError::BondingCurveInvariant);
        }
        Ok(())
    }
}

} // verus!
