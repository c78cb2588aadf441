//! The fee vault's bookkeeping for withdrawals of accrued trade fees.

use vstd::prelude::*;

use crate::errors::ContractError;

verus! {

/// Per-mint fee vault record: when fees were last withdrawn and how much
/// has ever been taken out.
#[derive(Clone, Copy, Debug, PartialEq, Eq, Structural)]
pub struct BondingCurveFeeVault {
    pub last_withdraw_time: Option<i64>,
    pub total_withdrawn: u64,
}

impl BondingCurveFeeVault {
    /// Decides one withdrawal at time `now`, given the vault's observed
    /// lamport balance and the minimum it must retain: everything above the
    /// minimum leaves, and the record advances. A withdrawal of nothing is
    /// rejected, and the running total fails closed instead of wrapping.
    pub fn apply_withdraw(&mut self, lamports: u64, min_balance: u64, now: i64) -> (r: Result<
        u64,
        ContractError,
    >)
        ensures
            r is Err ==> *final(self) == *old(self),
            lamports <= min_balance ==> r == Err::<u64, ContractError>(
                ContractError::NoFeesToWithdraw,
            ),
            lamports > min_balance && old(self).total_withdrawn + (lamports - min_balance)
                > u64::MAX ==> r == Err::<u64, ContractError>(ContractError::ArithmeticFailure),
            lamports > min_balance && old(self).total_withdrawn + (lamports - min_balance)
                <= u64::MAX ==> {
                &&& r == Ok::<u64, ContractError>((lamports - min_balance) as u64)
                &&& final(self).last_withdraw_time == Some(now)
                &&& final(self).total_withdrawn == old(self).total_withdrawn + (lamports
                    - min_balance)
            },
    {
        if lamports <= min_balance {
            return Err(ContractError::NoFeesToWithdraw);
        }
        let amount = lamports - min_balance;
        let new_total = match self.total_withdrawn.checked_add(amount) {
            Some(v) => v,
            None => {
                return Err(ContractError::ArithmeticFailure);
            },
        };
        self.last_withdraw_time = Some(now);
        self.total_withdrawn = new_total;
        Ok(amount)
    }
}

} // verus!
