//! The random source behind the retry jitter.

use rand::rngs::StdRng;
use rand::Rng;
use vstd::prelude::*;

verus! {

/// `rand::rngs::StdRng`, the seedable generator of the `rand` crate. Its state
/// is opaque to the verifier.
#[verifier::external_type_specification]
#[verifier::external_body]
pub struct ExStdRng(StdRng);

/// Draws one integer from `lo..=hi` with `rand::Rng::random_range`.
///
/// Trusted: `random_range` panics on an empty range, which `requires` rules
/// out, and for an inclusive range of `u16` it returns a value that is neither
/// below `lo` nor above `hi`. Nothing is claimed about which value comes back.
#[verifier::external_body]
pub(crate) fn draw_inclusive(rng: &mut StdRng, lo: u16, hi: u16) -> (draw: u16)
    requires
        lo <= hi,
    ensures
        lo <= draw <= hi,
{
    rng.random_range(lo..=hi)
}

} // verus!
