//! Random draws.
//!
//! The two functions here are the only place where the crate is not
//! deterministic. Their bodies are not verified: the contracts restate
//! what the `rand` crate documents for `Rng::gen_range`. The generator
//! is the thread's own, `rand::thread_rng()`, which takes no input and
//! fails only where the operating system has no entropy to seed it.

use rand::Rng;
use vstd::prelude::*;

verus! {

/// Draws an index from the half-open range `low..high`.
///
/// Calls `rand::thread_rng()` and `Rng::gen_range` with an exclusive
/// range. `gen_range` panics on an empty range, which the precondition
/// rules out, and otherwise returns a value inside the range. Nothing
/// else is claimed about the value: two calls may differ.
#[verifier::external_body]
pub(crate) fn random_index(low: usize, high: usize) -> (index: usize)
    requires
        low < high,
    ensures
        low <= index < high,
{
    rand::thread_rng().gen_range(low..high)
}

/// Draws a number from the closed range `low..=high`.
///
/// Calls `rand::thread_rng()` and `Rng::gen_range` with an inclusive
/// range. `gen_range` panics when `low > high`, which the precondition
/// rules out, and otherwise returns a value inside the range. Nothing
/// else is claimed about the value: two calls may differ.
#[verifier::external_body]
pub(crate) fn random_between(low: u64, high: u64) -> (value: u64)
    requires
        low <= high,
    ensures
        low <= value <= high,
{
    rand::thread_rng().gen_range(low..=high)
}

} // verus!
