//! Hash-based pseudo-random words.

use vstd::prelude::*;

verus! {

/// The low 32 bits of an integer.
pub open spec fn low_word(n: int) -> u32 {
    (n % 0x1_0000_0000) as u32
}

/// The linear congruential step that opens the hash.
pub open spec fn pcg_state(seed: u32) -> u32 {
    low_word(seed * 747796405 + 2891336453)
}

/// The permuted word: the state is xor-shifted by an amount taken from its
/// own top four bits, then multiplied.
pub open spec fn pcg_word(state: u32) -> u32 {
    low_word(((state >> (((state >> 28) + 4) as u32)) ^ state) * 277803737)
}

/// The hash of a seed: every operation is taken modulo two to the 32.
pub open spec fn pcg_hash_spec(seed: u32) -> u32 {
    let word = pcg_word(pcg_state(seed));
    (word >> 22) ^ word
}

/// Hashes `seed` into a word that looks unrelated to it.
pub fn pcg_hash(seed: u32) -> (hash: u32)
    ensures
        hash == pcg_hash_spec(seed),
{
    let scaled: u32 = seed.wrapping_mul(747796405);
    let state: u32 = scaled.wrapping_add(2891336453);
    assert(state == pcg_state(seed)) by {
        vstd::arithmetic::div_mod::lemma_add_mod_noop_right(
            2891336453,
            seed * 747796405,
            0x1_0000_0000,
        );
    }
    let top: u32 = state >> 28;
    assert(top <= 15) by (bit_vector)
        requires
            top == state >> 28,
    ;
    let shift: u32 = top + 4;
    let mixed: u32 = (state >> shift) ^ state;
    let word: u32 = mixed.wrapping_mul(277803737);
    (word >> 22) ^ word
}

/// Three hash words, each the numerator of a fraction over the largest word.
#[derive(Clone, Copy, Debug, PartialEq, Eq)]
pub struct HashVec3 {
    pub x: u32,
    pub y: u32,
    pub z: u32,
}

/// The three words of a chained hash: each one is the hash of the one before.
pub open spec fn rand_vec_spec(seed: u32) -> HashVec3 {
    let first = pcg_hash_spec(seed);
    let second = pcg_hash_spec(first);
    HashVec3 { x: first, y: second, z: pcg_hash_spec(second) }
}

/// A coarse random vector: three chained applications of the hash.
pub fn rand_vec(seed: u32) -> (v: HashVec3)
    ensures
        v == rand_vec_spec(seed),
{
    let first: u32 = pcg_hash(seed);
    let second: u32 = pcg_hash(first);
    let third: u32 = pcg_hash(second);
    HashVec3 { x: first, y: second, z: third }
}

/// The words of a scatter direction before it is centred and normalised.
pub open spec fn in_unit_sphere_spec(seed: u32) -> HashVec3 {
    let hash = pcg_hash_spec(seed);
    HashVec3 { x: hash, y: pcg_hash_spec(seed ^ hash), z: pcg_hash_spec(hash) }
}

/// The three words from which a scatter direction is built: the hash of the
/// seed, of the seed mixed with its hash, and of the hash itself.
pub fn in_unit_sphere(seed: u32) -> (v: HashVec3)
    ensures
        v == in_unit_sphere_spec(seed),
{
    let hash: u32 = pcg_hash(seed);
    let mixed: u32 = pcg_hash(seed ^ hash);
    let again: u32 = pcg_hash(hash);
    HashVec3 { x: hash, y: mixed, z: again }
}

/// The seed of one bounce of one pixel in one frame.
pub open spec fn derive_seed_spec(base_seed: u32, pixel_index: u32, bounce_index: u32) -> u32 {
    pcg_hash_spec(base_seed ^ pixel_index ^ pcg_hash_spec(bounce_index))
}

/// Mixes the frame's seed with the pixel and the bounce: the bounce index is
/// hashed, xored with the two others, and the mix is hashed again.
pub fn derive_seed(base_seed: u32, pixel_index: u32, bounce_index: u32) -> (seed: u32)
    ensures
        seed == derive_seed_spec(base_seed, pixel_index, bounce_index),
{
    let bounce_term: u32 = pcg_hash(bounce_index);
    pcg_hash(base_seed ^ pixel_index ^ bounce_term)
}

} // verus!
