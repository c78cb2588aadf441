//! Program-wide settings: authorities, initial curve parameters, fees and
//! the running status.

use vstd::prelude::*;

use crate::errors::ProgramError;
use crate::ids::AccountId;
use crate::math::BASIS_POINTS_DIVISOR;

verus! {

/// Whether the program accepts new curves and trades.
#[derive(Clone, Copy, Debug, PartialEq, Eq, Structural)]
pub enum ProgramStatus {
    Running,
    SwapOnly,
    SwapOnlyNoLaunch,
    Paused,
}

/// Optional replacement of the two authorities.
#[derive(Clone, Copy, Debug)]
pub struct GlobalAuthorityInput {
    pub global_authority: Option<AccountId>,
    pub withdraw_authority: Option<AccountId>,
}

/// Optional overrides for the global settings; a `None` leaves the current
/// value in place.
#[derive(Clone, Copy, Debug)]
pub struct GlobalSettingsInput {
    pub initial_token_supply: Option<u64>,
    pub initial_real_sol_reserves: Option<u64>,
    pub initial_real_token_reserves: Option<u64>,
    pub initial_virtual_sol_reserves: Option<u64>,
    pub initial_virtual_token_reserves: Option<u64>,
    pub sol_launch_threshold: Option<u64>,
    pub trade_fee_bps: Option<u32>,
    pub created_mint_decimals: Option<u8>,
    pub launch_fee_lamports: Option<u64>,
    pub status: Option<ProgramStatus>,
}

/// The program-wide state record.
#[derive(Clone, Copy, Debug)]
pub struct Global {
    pub status: ProgramStatus,
    pub initialized: bool,
    pub global_authority: AccountId,
    pub withdraw_authority: AccountId,
    pub initial_virtual_token_reserves: u64,
    pub initial_virtual_sol_reserves: u64,
    pub initial_real_token_reserves: u64,
    pub initial_real_sol_reserves: u64,
    pub initial_token_supply: u64,
    pub sol_launch_threshold: u64,
    pub trade_fee_bps: u32,
    pub launch_fee_lamports: u64,
    pub created_mint_decimals: u8,
}

/// A settings record with every override applied and everything else kept.
pub open spec fn spec_updated_settings(g: Global, params: GlobalSettingsInput) -> Global {
    Global {
        initial_token_supply: match params.initial_token_supply {
            Some(v) => v,
            None => g.initial_token_supply,
        },
        initial_real_sol_reserves: match params.initial_real_sol_reserves {
            Some(v) => v,
            None => g.initial_real_sol_reserves,
        },
        initial_real_token_reserves: match params.initial_real_token_reserves {
            Some(v) => v,
            None => g.initial_real_token_reserves,
        },
        initial_virtual_sol_reserves: match params.initial_virtual_sol_reserves {
            Some(v) => v,
            None => g.initial_virtual_sol_reserves,
        },
        initial_virtual_token_reserves: match params.initial_virtual_token_reserves {
            Some(v) => v,
            None => g.initial_virtual_token_reserves,
        },
        sol_launch_threshold: match params.sol_launch_threshold {
            Some(v) => v,
            None => g.sol_launch_threshold,
        },
        trade_fee_bps: match params.trade_fee_bps {
            Some(v) => v,
            None => g.trade_fee_bps,
        },
        launch_fee_lamports: match params.launch_fee_lamports {
            Some(v) => v,
            None => g.launch_fee_lamports,
        },
        created_mint_decimals: match params.created_mint_decimals {
            Some(v) => v,
            None => g.created_mint_decimals,
        },
        status: match params.status {
            Some(v) => v,
            None => g.status,
        },
        ..g
    }
}

/// The trade fee owed on an amount: `amount * trade_fee_bps / 10000`,
/// rounded down.
pub open spec fn spec_fee(trade_fee_bps: u32, amount: u64) -> int {
    (amount * trade_fee_bps) / (BASIS_POINTS_DIVISOR as int)
}

impl Global {
    /// Applies each supplied override, leaving the rest unchanged.
    pub fn update_settings(&mut self, params: GlobalSettingsInput)
        ensures
            *final(self) == spec_updated_settings(*old(self), params),
    {
        if let Some(value) = params.initial_token_supply {
            self.initial_token_supply = value;
        }
        if let Some(value) = params.initial_real_sol_reserves {
            self.initial_real_sol_reserves = value;
        }
        if let Some(value) = params.initial_real_token_reserves {
            self.initial_real_token_reserves = value;
        }
        if let Some(value) = params.initial_virtual_sol_reserves {
            self.initial_virtual_sol_reserves = value;
        }
        if let Some(value) = params.initial_virtual_token_reserves {
            self.initial_virtual_token_reserves = value;
        }
        if let Some(value) = params.sol_launch_threshold {
            self.sol_launch_threshold = value;
        }
        if let Some(trade_fee_bps) = params.trade_fee_bps {
            self.trade_fee_bps = trade_fee_bps;
        }
        if let Some(launch_fee_lamports) = params.launch_fee_lamports {
            self.launch_fee_lamports = launch_fee_lamports;
        }
        if let Some(created_mint_decimals) = params.created_mint_decimals {
            self.created_mint_decimals = created_mint_decimals;
        }
        if let Some(status) = params.status {
            self.status = status;
        }
    }

    /// Replaces each supplied authority, leaving the other unchanged.
    pub fn update_authority(&mut self, params: GlobalAuthorityInput)
        ensures
            final(self).global_authority == (match params.global_authority {
                Some(a) => a,
                None => old(self).global_authority,
            }),
            final(self).withdraw_authority == (match params.withdraw_authority {
                Some(a) => a,
                None => old(self).withdraw_authority,
            }),
            *final(self) == (Global {
                global_authority: final(self).global_authority,
                withdraw_authority: final(self).withdraw_authority,
                ..*old(self)
            }),
    {
        if let Some(global_authority) = params.global_authority {
            self.global_authority = global_authority;
        }
        if let Some(withdraw_authority) = params.withdraw_authority {
            self.withdraw_authority = withdraw_authority;
        }
    }

    /// The trade fee owed on `amount` under the current fee rate; the
    /// product is taken in 128-bit width. With the fee rate at or below
    /// 10000 basis points the fee never exceeds the amount.
    pub fn calculate_fee(&self, amount: u64) -> (r: u64)
        requires
            self.trade_fee_bps <= BASIS_POINTS_DIVISOR,
        ensures
            r == spec_fee(self.trade_fee_bps, amount),
            r <= amount,
    {
        proof {
            vstd::arithmetic::mul::lemma_mul_inequality(
                self.trade_fee_bps as int,
                BASIS_POINTS_DIVISOR as int,
                amount as int,
            );
            vstd::arithmetic::mul::lemma_mul_is_commutative(
                self.trade_fee_bps as int,
                amount as int,
            );
            vstd::arithmetic::div_mod::lemma_div_is_ordered(
                (amount as int) * (self.trade_fee_bps as int),
                (BASIS_POINTS_DIVISOR as int) * (amount as int),
                BASIS_POINTS_DIVISOR as int,
            );
            vstd::arithmetic::mul::lemma_mul_is_commutative(
                BASIS_POINTS_DIVISOR as int,
                amount as int,
            );
            vstd::arithmetic::div_mod::lemma_div_multiples_vanish(
                amount as int,
                BASIS_POINTS_DIVISOR as int,
            );
        }
        let wide: u128 = (amount as u128) * (self.trade_fee_bps as u128) / (BASIS_POINTS_DIVISOR
            as u128);
        wide as u64
    }

    /// First-time initialization: adopts the caller as global authority,
    /// applies the supplied settings, and starts the program running.
    pub fn initialize(&mut self, authority: AccountId, params: GlobalSettingsInput) -> (r: Result<
        (),
        ProgramError,
    >)
        ensures
            old(self).initialized ==> r == Err::<(), ProgramError>(ProgramError::AlreadyInitialized)
                && *final(self) == *old(self),
            !old(self).initialized ==> r is Ok && *final(self) == (Global {
                status: ProgramStatus::Running,
                initialized: true,
                global_authority: authority,
                ..spec_updated_settings(*old(self), params)
            }),
    {
        if self.initialized {
            return Err(ProgramError::AlreadyInitialized);
        }
        self.update_authority(
            GlobalAuthorityInput { global_authority: Some(authority), withdraw_authority: None },
        );
        self.update_settings(params);
        self.status = ProgramStatus::Running;
        self.initialized = true;
        Ok(())
    }
}

} // verus!
