//! Drawing the hidden number.

use vstd::prelude::*;
use rand::Rng;

verus! {

/// Relies on `rand::thread_rng` and `Rng::gen_range` on an inclusive range:
/// a value drawn from `start..=end`, which panics on an empty range.
#[verifier::external_body]
fn random_in_range(start: u32, end: u32) -> (r: u32)
    requires
        start <= end,
    ensures
        start <= r <= end,
{
    rand::thread_rng().gen_range(start..=end)
}

/// A number drawn at random from `start` to `end`, both included.
pub fn get_secret_number(start: u32, end: u32) -> (r: u32)
    requires
        start <= end,
    ensures
        start <= r <= end,
{
    random_in_range(start, end)
}

} // verus!
