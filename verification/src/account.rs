//! 20-byte account identifiers, held as plain integers.

use vstd::prelude::*;

verus! {

/// A 20-byte account identifier, split into its high 4 bytes and low 16 bytes
/// so that each half fits a machine integer.
#[derive(Clone, Copy, PartialEq, Eq, Structural, Debug, Hash)]
pub struct AccountId {
    /// The most significant 4 bytes of the identifier.
    pub hi: u32,
    /// The least significant 16 bytes of the identifier.
    pub lo: u128,
}

impl AccountId {
    /// The all-zero identifier, used where no account has been recorded yet.
    pub open spec fn spec_zero() -> AccountId {
        AccountId { hi: 0, lo: 0 }
    }

    /// Builds the all-zero identifier.
    pub fn zero() -> (r: AccountId)
        ensures
            r == AccountId::spec_zero(),
    {
        AccountId { hi: 0, lo: 0 }
    }

    /// Builds an identifier from its two halves.
    pub fn new(hi: u32, lo: u128) -> (r: AccountId)
        ensures
            r == (AccountId { hi, lo }),
    {
        AccountId { hi, lo }
    }
}

} // verus!
