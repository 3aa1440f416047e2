//! The random source: rand's `SmallRng`, reached through a few trusted calls.

use rand::seq::SliceRandom;
use rand::Rng;
use rand::SeedableRng;
use vstd::prelude::*;

verus! {

#[verifier::external_type_specification]
#[verifier::external_body]
pub struct ExSmallRng(rand::rngs::SmallRng);

#[verifier::external_type_specification]
#[verifier::external_body]
pub struct ExRandError(rand::Error);

/// Why no random generator could be made.
#[derive(Debug, Clone, Copy, PartialEq, Eq)]
pub enum RngInitError {
    /// The operating system's entropy source could not seed the generator.
    EntropyUnavailable,
}

/// The generator that `SmallRng::seed_from_u64` makes from a seed; it depends
/// on the seed alone.
pub uninterp spec fn seeded_of(seed: u64) -> rand::rngs::SmallRng;

/// Relies on `SeedableRng::seed_from_u64` for `SmallRng`: a generator whose
/// state is fixed by the seed.
#[verifier::external_body]
fn seeded_small_rng(seed: u64) -> (r: rand::rngs::SmallRng)
    ensures
        r == seeded_of(seed),
{
    rand::rngs::SmallRng::seed_from_u64(seed)
}

/// Relies on `SeedableRng::from_rng(OsRng)` for `SmallRng`: a generator seeded
/// from operating system entropy, or the error of that source.
#[verifier::external_body]
fn entropy_small_rng() -> (r: Result<rand::rngs::SmallRng, rand::Error>) {
    rand::rngs::SmallRng::from_rng(rand::rngs::OsRng)
}

/// A generator for a run: seeded deterministically when a seed is given,
/// otherwise from operating system entropy.
pub fn new_rng(seed: Option<u64>) -> (r: Result<rand::rngs::SmallRng, RngInitError>)
    ensures
        seed.is_some() ==> r.is_ok(),
        seed matches Some(s) ==> r == Ok::<rand::rngs::SmallRng, RngInitError>(seeded_of(s)),
{
    match seed {
        Some(s) => Ok(seeded_small_rng(s)),
        None => match entropy_small_rng() {
            Ok(g) => Ok(g),
            Err(_) => Err(RngInitError::EntropyUnavailable),
        },
    }
}

/// Relies on `Rng::gen_range` over a half-open `usize` range: a value in the
/// range; it panics on an empty range, which `requires` leaves out.
#[verifier::external_body]
pub(crate) fn draw_in_range(rng: &mut rand::rngs::SmallRng, lo: usize, hi: usize) -> (r: usize)
    requires
        lo < hi,
    ensures
        lo <= r < hi,
{
    rng.gen_range(lo..hi)
}

/// Relies on `Rng::gen::<u64>`, which is `RngCore::next_u64`: any 64-bit value.
#[verifier::external_body]
pub(crate) fn draw_u64(rng: &mut rand::rngs::SmallRng) -> (r: u64) {
    rng.gen::<u64>()
}

/// Relies on `SliceRandom::choose`: `None` exactly on an empty slice, else one
/// of its elements.
#[verifier::external_body]
pub(crate) fn choose_from(rng: &mut rand::rngs::SmallRng, items: &Vec<usize>) -> (r: Option<usize>)
    ensures
        r.is_none() <==> items@.len() == 0,
        r matches Some(x) ==> items@.contains(x),
{
    items.as_slice().choose(rng).copied()
}

} // verus!
