//! Vesting terms and the time-linear vested-claim calculation.

use vstd::prelude::*;

use crate::errors::ContractError;

verus! {

/// Cliff and total duration of a vested allocation, in seconds.
#[derive(Clone, Copy, Debug, PartialEq, Eq, Structural)]
pub struct VestingTerms {
    pub cliff: i64,
    pub duration: i64,
}

impl Default for VestingTerms {
    /// Seven-day cliff, thirty-one-day duration.
    fn default() -> (r: Self)
        ensures
            r.cliff == 604800,
            r.duration == 2678400,
    {
        VestingTerms { cliff: 7 * 24 * 60 * 60, duration: 31 * 24 * 60 * 60 }
    }
}

/// Per-beneficiary distributor record: the bucket granted at curve creation
/// and the time of the last distribution, if any.
#[derive(Clone, Copy, Debug, PartialEq, Eq, Structural)]
pub struct CreatorDistributor {
    pub initial_vested_supply: u64,
    pub last_distribution: Option<i64>,
}

/// Distributor record for the presale bucket; released in full, never
/// vested over time.
#[derive(Clone, Copy, Debug, PartialEq, Eq, Structural)]
pub struct PresaleDistributor {
    pub initial_vested_supply: u64,
}

/// Distributor record for the platform bucket; the claim calculation is the
/// same time-linear release as the creator's.
#[derive(Clone, Copy, Debug, PartialEq, Eq, Structural)]
pub struct PlatformDistributor {
    pub initial_vested_supply: u64,
    pub last_distribution: Option<i64>,
}

/// Distributor record for the two brandkit buckets.
#[derive(Clone, Copy, Debug, PartialEq, Eq, Structural)]
pub struct BrandDistributor {
    pub launch_brandkit_supply: u64,
    pub lifetime_brandkit_supply: u64,
    pub initial_vested_supply: u64,
}

/// The second from which an eligible claim accrues: one past the previous
/// distribution, or the end of the cliff for a first claim.
pub open spec fn spec_claim_start_second(
    dist: CreatorDistributor,
    start_time: i64,
    cliff: i64,
) -> int {
    match dist.last_distribution {
        Some(last) => last + 1,
        None => start_time + cliff,
    }
}

/// Tokens released per second: the vested bucket spread evenly over the
/// duration, rounded down.
pub open spec fn spec_tokens_per_second(dist: CreatorDistributor, duration: i64) -> int {
    (dist.initial_vested_supply as int) / (duration as int)
}

impl CreatorDistributor {
    /// A fresh distributor for a vested bucket; nothing distributed yet.
    pub fn new(initial_vested_supply: u64) -> (r: CreatorDistributor)
        ensures
            r.initial_vested_supply == initial_vested_supply,
            r.last_distribution is None,
    {
        CreatorDistributor { initial_vested_supply, last_distribution: None }
    }

    /// Applies one vested claim at time `now` against a curve that started at
    /// `start_time` under `terms`.
    ///
    /// Rejected when trading has not started, when the cliff has not fully
    /// elapsed, or when not one full second has passed since the previous
    /// distribution; the released amount is `tokens_per_second` times the
    /// seconds elapsed since the accrual start, and the new record advances
    /// `last_distribution` to `now`.
    pub fn claim(&self, start_time: i64, terms: VestingTerms, now: i64) -> (r: Result<
        (CreatorDistributor, u64),
        ContractError,
    >)
        requires
            terms.duration > 0,
            terms.cliff >= 0,
        ensures
            now < start_time ==> r == Err::<(CreatorDistributor, u64), _>(
                ContractError::CurveNotStarted,
            ),
            now >= start_time && now - start_time <= terms.cliff ==> r == Err::<
                (CreatorDistributor, u64),
                _,
            >(ContractError::CliffNotReached),
            now - start_time > terms.cliff && (self.last_distribution matches Some(last) && now
                <= last) ==> r == Err::<(CreatorDistributor, u64), _>(
                ContractError::VestingPeriodNotOver,
            ),
            now - start_time > terms.cliff && (match self.last_distribution {
                Some(last) => now > last,
                None => true,
            }) ==> {
                let amount = spec_tokens_per_second(*self, terms.duration) * (now
                    - spec_claim_start_second(*self, start_time, terms.cliff));
                if amount <= u64::MAX {
                    r == Ok::<_, ContractError>(
                        (
                            CreatorDistributor {
                                initial_vested_supply: self.initial_vested_supply,
                                last_distribution: Some(now),
                            },
                            amount as u64,
                        ),
                    )
                } else {
                    r == Err::<(CreatorDistributor, u64), _>(ContractError::ArithmeticFailure)
                }
            },
    {
        if now < start_time {
            return Err(ContractError::CurveNotStarted);
        }
        let since_start: i128 = now as i128 - start_time as i128;
        if since_start <= terms.cliff as i128 {
            return Err(ContractError::CliffNotReached);
        }
        let tokens_per_second: u64 = self.initial_vested_supply / (terms.duration as u64);
        let start_second: i64 = match self.last_distribution {
            Some(last) => {
                if now <= last {
                    return Err(ContractError::VestingPeriodNotOver);
                }
                last + 1
            },
            None => {
                // the cliff check already passed, so `start_time + cliff`
                // lies strictly below `now` and fits the integer width
                start_time + terms.cliff
            },
        };
        let elapsed: u64 = (now as i128 - start_second as i128) as u64;
        proof {
            assert((tokens_per_second as u128) * (elapsed as u128) <= (u64::MAX as u128) * (
            u64::MAX as u128)) by (nonlinear_arith)
                requires
                    tokens_per_second <= u64::MAX,
                    elapsed <= u64::MAX,
            ;
        }
        let wide: u128 = (tokens_per_second as u128) * (elapsed as u128);
        if wide > u64::MAX as u128 {
            return Err(ContractError::ArithmeticFailure);
        }
        Ok(
            (
                CreatorDistributor {
                    initial_vested_supply: self.initial_vested_supply,
                    last_distribution: Some(now),
                },
                wide as u64,
            ),
        )
    }
}

} // verus!
