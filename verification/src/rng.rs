//! The single source of randomness of the library.
//!
//! Every random choice the simulation makes — food and power-up placement,
//! power-up kinds, join-code letters, the easy bot's whims — is drawn through
//! `rand_below`. Its contract states only the range of the draw, never the
//! value, so everything proved about the callers holds for every outcome.

use rand::Rng;
use vstd::prelude::*;

verus! {

/// Relies on rand's `Rng::gen_range` over `0..n`: it returns a value
/// uniformly drawn from that range and panics only when the range is empty,
/// which the precondition rules out.
#[verifier::external_body]
pub(crate) fn rand_below(n: u32) -> (r: u32)
    requires
        n > 0,
    ensures
        r < n,
{
    rand::thread_rng().gen_range(0..n)
}

} // verus!
