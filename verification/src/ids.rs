//! Identity references. The host ledger addresses accounts by opaque keys;
//! the engine only ever stores and compares them, so they are modelled as
//! plain integer identifiers handed in by the host boundary.

use vstd::prelude::*;

verus! {

/// An already-validated reference to a host account (a mint, a creator, an
/// authority). The engine never inspects an identity beyond equality.
#[derive(Clone, Copy, Debug, PartialEq, Eq, Structural)]
pub struct AccountId {
    pub value: u64,
}

impl AccountId {
    /// The reserved all-zero identity, used where the host has not supplied
    /// one yet.
    pub fn zero() -> (r: AccountId)
        ensures
            r.value == 0,
    {
        AccountId { value: 0 }
    }
}

} // verus!
