//! The source of the random draws by which an image is picked.

use rand::rngs::StdRng;
use rand::Rng;
use rand::SeedableRng;
use vstd::prelude::*;

verus! {

/// The generator of the `rand` crate. Nothing is known of its state.
#[verifier::external_type_specification]
#[verifier::external_body]
pub struct ExStdRng(StdRng);

/// The seed of the generator that stands in where the system gives no
/// entropy.
pub const FALLBACK_SEED: u64 = 0;

/// Calls `rand::SeedableRng::seed_from_u64`. Nothing is claimed of the
/// generator that it returns.
#[verifier::external_body]
fn generator_from_seed(seed: u64) -> StdRng {
    StdRng::seed_from_u64(seed)
}

/// Calls `rand::SeedableRng::try_from_os_rng`, which asks the system for a
/// seed; `None` where the system gives none.
#[verifier::external_body]
fn generator_from_system() -> Option<StdRng> {
    StdRng::try_from_os_rng().ok()
}

/// Calls `rand::Rng::random_range` with the range of the numbers below
/// `bound`: the draw by which `rand::seq::IndexedRandom::choose` picks from
/// a slice of that length. The range is not empty, so the call returns, and
/// what it returns lies in the range; which number it is, is not said.
#[verifier::external_body]
fn number_below(generator: &mut StdRng, bound: usize) -> (drawn: usize)
    requires
        bound > 0,
    ensures
        drawn < bound,
{
    generator.random_range(..bound)
}

/// A generator of random numbers together with the seed it was started
/// from, where that seed was chosen and not taken from the system, and the
/// count of the draws made from it since.
pub struct RandomSource {
    generator: StdRng,
    seed: Option<u64>,
    draws: Ghost<nat>,
}

impl RandomSource {
    /// The seed that was chosen for this source; `None` where the system
    /// seeded it.
    pub closed spec fn fixed_seed(&self) -> Option<u64> {
        self.seed
    }

    /// How many numbers were drawn from this source since it was started.
    pub closed spec fn draws(&self) -> nat {
        self.draws@
    }

    /// A source that repeats the same draws whenever it is started from the
    /// same seed.
    pub fn seeded(seed: u64) -> (source: RandomSource)
        ensures
            source.fixed_seed() == Some(seed),
            source.draws() == 0,
    {
        RandomSource { generator: generator_from_seed(seed), seed: Some(seed), draws: Ghost(0) }
    }

    /// A source that the system seeded. Where the system has no entropy to
    /// give, the source is started from [`FALLBACK_SEED`] instead.
    pub fn from_system() -> (source: RandomSource)
        ensures
            source.fixed_seed() is None || source.fixed_seed() == Some(FALLBACK_SEED),
            source.draws() == 0,
    {
        RandomSource::from_generator(generator_from_system())
    }

    /// The source for what the system gave: a source without a chosen seed
    /// around the generator that it seeded, or, where it gave none, a
    /// source started from [`FALLBACK_SEED`].
    pub fn from_generator(given: Option<StdRng>) -> (source: RandomSource)
        ensures
            given is Some ==> source.fixed_seed() is None,
            given is None ==> source.fixed_seed() == Some(FALLBACK_SEED),
            source.draws() == 0,
    {
        match given {
            Some(generator) => RandomSource { generator, seed: None, draws: Ghost(0) },
            None => RandomSource::seeded(FALLBACK_SEED),
        }
    }

    /// The seed that was chosen for this source, if one was.
    pub fn seed(&self) -> (seed: Option<u64>)
        ensures
            seed == self.fixed_seed(),
    {
        self.seed
    }

    /// Draws a number below `bound`, and counts the draw. There is none
    /// below zero: then nothing is drawn and the source stays as it is.
    pub fn draw_below(&mut self, bound: usize) -> (drawn: Option<usize>)
        ensures
            bound == 0 <==> drawn is None,
            drawn matches Some(number) ==> number < bound,
            drawn is None ==> *final(self) == *old(self),
            drawn is Some ==> final(self).draws() == old(self).draws() + 1,
            final(self).fixed_seed() == old(self).fixed_seed(),
    {
        if bound == 0 {
            None
        } else {
            let number = number_below(&mut self.generator, bound);
            self.draws = Ghost((self.draws@ + 1) as nat);
            Some(number)
        }
    }
}

} // verus!
