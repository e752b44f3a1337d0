//! Identities of operators, vaults, stake mints, authorities and programs.

use vstd::prelude::*;

verus! {

/// A 256-bit identity, held as its high and low halves in big-endian order.
///
/// Identities are only ever compared: two are the same exactly when both
/// halves agree.
#[derive(Clone, Copy, Debug, PartialEq, Eq, Structural, Hash)]
pub struct Pubkey {
    pub hi: u128,
    pub lo: u128,
}

impl Pubkey {
    /// The identity with the given halves.
    pub fn new(hi: u128, lo: u128) -> (k: Pubkey)
        ensures
            k == (Pubkey { hi, lo }),
    {
        Pubkey { hi, lo }
    }
}

} // verus!
