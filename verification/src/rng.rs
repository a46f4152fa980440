//! The seeded random stream behind the scatter generator.
//!
//! The generator is the ChaCha12 keystream of the `chacha20` crate: a
//! fully specified function of its seed, so the stream drawn for a given
//! seed is the same in every run, which is what makes scatter placement
//! reproducible. The library sees the stream through one name,
//! `rng_word`, and trusted wrappers that relate each draw to it.
use vstd::prelude::*;

verus! {

#[verifier::external_type_specification]
#[verifier::external_body]
pub struct ExChaCha12Rng(chacha20::ChaCha12Rng);

/// The `index`-th 64-bit word of the ChaCha12 keystream grown from
/// `seed` by the specified `seed_from_u64` expansion. Uninterpreted: the
/// trusted wrappers below relate the generator's draws to it.
pub uninterp spec fn rng_word(seed: u64, index: u64) -> u64;

/// A seeded generator together with how many words it has drawn.
pub struct SeededRng {
    inner: chacha20::ChaCha12Rng,
    seed: u64,
    drawn: u64,
}

impl SeededRng {
    /// The seed this generator was grown from.
    pub closed spec fn seed(self) -> u64 {
        self.seed
    }

    /// How many words have been drawn so far.
    pub closed spec fn drawn(self) -> u64 {
        self.drawn
    }

    /// Relies on `chacha20::ChaCha12Rng` via `SeedableRng::seed_from_u64`
    /// (`rand_core`): seeding is a pure function of `seed`, and the
    /// generator starts at the head of its stream.
    #[verifier::external_body]
    pub fn new(seed: u64) -> (r: SeededRng)
        ensures
            r.seed() == seed,
            r.drawn() == 0,
    {
        SeededRng {
            inner: <chacha20::ChaCha12Rng as rand::SeedableRng>::seed_from_u64(seed),
            seed,
            drawn: 0,
        }
    }

    /// Relies on `Rng::next_u64` (`rand_core`) on `ChaCha12Rng`: each
    /// draw returns the next word of the seed's keystream and advances
    /// the position by one.
    #[verifier::external_body]
    pub fn next_word(&mut self) -> (r: u64)
        requires
            old(self).drawn() < u64::MAX,
        ensures
            final(self).seed() == old(self).seed(),
            final(self).drawn() == old(self).drawn() + 1,
            r == rng_word(old(self).seed(), old(self).drawn()),
    {
        self.drawn += 1;
        rand::Rng::next_u64(&mut self.inner)
    }
}

} // verus!
