//! A segmented bonding-curve pricing and supply-allocation engine.
//!
//! Given a token's total supply split into fixed buckets (creator, presale,
//! brand, platform, pool, CEX, and a tradable bonding-curve bucket), the
//! library converts basis-point allocations into absolute supplies, validates
//! and resolves a piecewise price-curve schedule, computes SOL/token exchange
//! amounts along that curve, applies buy and sell trades against in-memory
//! reserve counters, and checks consistency between those counters and
//! externally observed custodial balances.
//!
//! Two mutually exclusive pricing strategies are provided: a segmented curve
//! with constant, linear and exponential segments ([`curve::BondingCurve`]),
//! and a constant-product design with virtual reserves ([`amm::BondingCurve`]).

pub mod allocation;
pub mod amm;
pub mod curve;
pub mod errors;
pub mod fee_vault;
pub mod global;
pub mod ids;
pub mod laws;
pub mod math;
pub mod pricing;
pub mod segment;
pub mod swap;
pub mod vesting;
