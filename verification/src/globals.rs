//! Parameters of a frame that the user can set.

use vstd::prelude::*;
use crate::math::{pcg_hash, pcg_hash_spec};

verus! {

/// Draws a word with `fastrand::u32` over the whole range of words, from the
/// generator of the calling thread. Nothing is claimed of the word drawn.
#[verifier::external_body]
fn random_word() -> u32 {
    fastrand::u32(..)
}

/// The seed, the path length and the sky colour of a frame.
#[derive(Debug)]
pub struct Globals<C> {
    /// Seed of the frame's random choices.
    pub seed: u32,
    /// The most bounces a path may take.
    pub bounces: u32,
    /// The light of a ray that leaves the scene.
    pub sky_color: C,
}

impl<C> Globals<C> {
    /// The parameters a render starts with: seed `0x5748` and eight bounces
    /// under the given sky.
    pub fn new(sky_color: C) -> (globals: Globals<C>)
        ensures
            globals.seed == 0x5748,
            globals.bounces == 8,
            globals.sky_color == sky_color,
    {
        Globals { seed: 0x5748, bounces: 8, sky_color }
    }

    /// Replaces the seed; bounces and sky stay.
    pub fn set_seed(&mut self, seed: u32)
        ensures
            final(self).seed == seed,
            final(self).bounces == old(self).bounces,
            final(self).sky_color == old(self).sky_color,
    {
        self.seed = seed;
    }

    /// Replaces the seed by a word drawn at random; bounces and sky stay.
    pub fn reseed(&mut self)
        ensures
            final(self).bounces == old(self).bounces,
            final(self).sky_color == old(self).sky_color,
    {
        let word: u32 = random_word();
        self.set_seed(word);
    }

    /// Moves the seed on to its hash, so that the next frame samples anew.
    pub fn advance_seed(&mut self)
        ensures
            final(self).seed == pcg_hash_spec(old(self).seed),
            final(self).bounces == old(self).bounces,
            final(self).sky_color == old(self).sky_color,
    {
        self.seed = pcg_hash(self.seed);
    }
}

} // verus!
