//! A sphere of the scene.

use vstd::prelude::*;

verus! {

/// A sphere: its shape, which the caller defines, and the index of its
/// material in the scene's material list.
#[derive(Debug)]
pub struct Sphere<G> {
    /// Centre and radius, in the caller's numbers.
    pub shape: G,
    /// Which material to use.
    pub material_index: u32,
}

impl<G> Sphere<G> {
    /// A sphere of the given shape and material.
    pub fn new(shape: G, material_index: u32) -> (sphere: Sphere<G>)
        ensures
            sphere.shape == shape,
            sphere.material_index == material_index,
    {
        Sphere { shape, material_index }
    }
}

} // verus!
