//! Seeded pseudorandom words for the initial agent population.
//!
//! The population must be a pure function of `(seed, count)`, so the
//! generator is passed explicitly and modelled by its seed and the number of
//! words drawn so far: the word at a given position of a seed's stream is
//! always the same value. The one trusted item draws the word at an explicit
//! position from a freshly seeded generator, so it is stateless and its
//! result depends on its arguments alone.

use vstd::prelude::*;
use rand::{RngCore, SeedableRng};

verus! {

/// The word at position `index` of the pseudorandom stream obtained by
/// seeding a `pcg64` generator with `seed`. The generator is a deterministic,
/// portable permutation, so this is a function of `seed` and `index` alone;
/// what the words are is left unspecified.
pub uninterp spec fn stream_word(seed: u64, index: int) -> u32;

/// Relies on `rand_pcg::Lcg128Xsl64` (the standard `pcg64`):
/// `SeedableRng::seed_from_u64` derives the generator state from the seed by
/// a fixed, documented expansion; `advance(n)` is documented as equivalent to
/// drawing `n` times; and `RngCore::next_u32` is one step of a deterministic,
/// portable permutation. So the returned word is a function of `seed` and
/// `index` alone.
#[verifier::external_body]
fn word_at(seed: u64, index: u64) -> (w: u32)
    ensures
        w == stream_word(seed, index as int),
{
    let mut g = rand_pcg::Lcg128Xsl64::seed_from_u64(seed);
    g.advance(index as u128);
    g.next_u32()
}

/// A position in the pseudorandom stream of one seed. Drawing hands out
/// consecutive stream words, so a population generated through it is
/// determined by the seed alone.
pub struct SeededRng {
    seeded_with: u64,
    consumed: u64,
}

impl SeededRng {
    /// The seed this generator was created from.
    pub closed spec fn seed(&self) -> u64 {
        self.seeded_with
    }

    /// How many words have been drawn since seeding.
    pub closed spec fn drawn(&self) -> u64 {
        self.consumed
    }

    /// Creates a generator from `seed`, with no words drawn yet.
    pub fn new(seed: u64) -> (g: SeededRng)
        ensures
            g.seed() == seed,
            g.drawn() == 0,
    {
        SeededRng { seeded_with: seed, consumed: 0 }
    }

    /// Draws the next word of the stream and moves past it.
    pub fn next_word(&mut self) -> (w: u32)
        requires
            old(self).drawn() < u64::MAX,
        ensures
            final(self).seed() == old(self).seed(),
            final(self).drawn() == old(self).drawn() + 1,
            w == stream_word(old(self).seed(), old(self).drawn() as int),
    {
        let w = word_at(self.seeded_with, self.consumed);
        self.consumed = self.consumed + 1;
        w
    }
}

} // verus!
