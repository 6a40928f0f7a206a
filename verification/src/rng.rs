//! The simulation's only source of randomness, kept behind one wrapper so
//! every decision that consumes a draw is a verified function of it.

use vstd::prelude::*;

verus! {

/// Relies on rand::random: a fresh pseudo-random 32-bit value. Nothing can
/// be promised of it; every caller must hold for all values.
#[verifier::external_body]
pub(crate) fn random_u32() -> u32 {
    rand::random::<u32>()
}

} // verus!
