//! The scene: spheres, the materials they point at, and the default scene.

use vstd::prelude::*;
use crate::math::{rand_vec, rand_vec_spec, HashVec3};
use crate::sphere::Sphere;

verus! {

/// Number of materials in the default scene.
pub const EXAMPLE_MATERIALS: usize = 7;

/// Number of grid cells, and so of scattered spheres, in the default scene.
pub const EXAMPLE_CELLS: usize = 200;

/// One cell of the grid over which the default scene scatters its spheres.
#[derive(Clone, Copy, Debug, PartialEq, Eq)]
pub struct GridCell {
    pub x: u32,
    pub y: u32,
    pub z: u32,
    /// The seed of the cell, mixed from its coordinates.
    pub seed: u32,
    /// The chained hash words of the seed, from which the sphere is placed.
    pub words: HashVec3,
}

/// The seed of the cell `(x, y, z)`.
pub open spec fn cell_seed(x: u32, y: u32, z: u32) -> u32 {
    (x + y * 0x43182 + z * 0x13457) as u32
}

/// The cell with coordinates `(x, y, z)`.
pub open spec fn cell_of(x: u32, y: u32, z: u32) -> GridCell {
    GridCell { x, y, z, seed: cell_seed(x, y, z), words: rand_vec_spec(cell_seed(x, y, z)) }
}

/// The `i`-th cell of the grid: ten columns, in each ten rows, in each the
/// layers one and two.
pub open spec fn cell_at(i: int) -> GridCell {
    cell_of((i / 20) as u32, ((i / 2) % 10) as u32, (1 + i % 2) as u32)
}

/// The material of a scattered sphere: the scalar is mixed with a constant
/// and folded into the five slots that follow the two reserved ones.
pub open spec fn material_slot_spec(scalar: usize) -> u32 {
    (((scalar ^ 0x587439) % 5) + 2) as u32
}

/// Picks the material slot of a scattered sphere from a scalar derived from
/// its cell. The slot is never one of the two reserved for ground and sun.
pub fn material_slot(scalar: usize) -> (slot: u32)
    ensures
        slot == material_slot_spec(scalar),
        2 <= slot < EXAMPLE_MATERIALS,
{
    let mixed: usize = scalar ^ 0x587439;
    let folded: usize = mixed % 5;
    (folded + 2) as u32
}

/// The grid cell `(x, y, z)` with its seed and hash words.
pub fn grid_cell(x: u32, y: u32, z: u32) -> (cell: GridCell)
    requires
        x + y * 0x43182 + z * 0x13457 <= u32::MAX,
    ensures
        cell == cell_of(x, y, z),
{
    let seed: u32 = x + y * 0x43182 + z * 0x13457;
    GridCell { x, y, z, seed, words: rand_vec(seed) }
}

/// Spheres, the materials they use, and the camera that looks at them.
pub struct Scene<G, M, C> {
    pub spheres: Vec<Sphere<G>>,
    pub materials: Vec<M>,
    pub camera: C,
}

/// Whether `place` accepts every cell of the grid.
pub open spec fn places_all<G, F: Fn(GridCell) -> (G, usize)>(place: F) -> bool {
    forall|i: int| 0 <= i < EXAMPLE_CELLS ==> call_requires(place, (#[trigger] cell_at(i),))
}

/// Whether `sphere` is what `place` makes of `cell`: the shape it returned,
/// with the material slot picked from the scalar it returned.
pub open spec fn placed<G, F: Fn(GridCell) -> (G, usize)>(
    place: F,
    cell: GridCell,
    sphere: Sphere<G>,
) -> bool {
    exists|scalar: usize| #[trigger]
        call_ensures(place, (cell,), (sphere.shape, scalar)) && sphere.material_index
            == material_slot_spec(scalar)
}

impl<G, M, C> Scene<G, M, C> {
    /// Every sphere points at a material that the scene has.
    pub open spec fn well_formed(&self) -> bool {
        forall|i: int|
            0 <= i < self.spheres@.len() ==> (#[trigger] self.spheres@[i]).material_index
                < self.materials@.len()
    }

    /// Whether `spheres` are the default scene's: the hand-placed ones first,
    /// then one sphere for each grid cell in order.
    pub open spec fn scattered<F: Fn(GridCell) -> (G, usize)>(
        spheres: Seq<Sphere<G>>,
        fixed: Seq<Sphere<G>>,
        place: F,
    ) -> bool {
        &&& spheres.len() == fixed.len() + EXAMPLE_CELLS
        &&& spheres.take(fixed.len() as int) == fixed
        &&& forall|i: int|
            0 <= i < EXAMPLE_CELLS ==> placed(place, cell_at(i), #[trigger] spheres[fixed.len() + i])
    }

    /// Builds the default scene around `camera`: the hand-placed spheres
    /// `fixed`, then one sphere per grid cell, whose shape and material
    /// scalar `place` derives from the cell.
    pub fn example_scene<F: Fn(GridCell) -> (G, usize)>(
        fixed: Vec<Sphere<G>>,
        materials: Vec<M>,
        camera: C,
        place: F,
    ) -> (scene: Scene<G, M, C>)
        requires
            materials@.len() == EXAMPLE_MATERIALS,
            forall|i: int|
                0 <= i < fixed@.len() ==> (#[trigger] fixed@[i]).material_index
                    < EXAMPLE_MATERIALS,
            places_all(place),
        ensures
            scene.materials@ == materials@,
            scene.camera == camera,
            Self::scattered(scene.spheres@, fixed@, place),
            scene.well_formed(),
    {
        let ghost hand_placed = fixed@;
        let mut spheres = fixed;
        let mut x: u32 = 0;
        while x < 10
            invariant
                x <= 10,
                places_all(place),
                spheres@.len() == hand_placed.len() + x * 20,
                spheres@.take(hand_placed.len() as int) == hand_placed,
                forall|i: int|
                    0 <= i < x * 20 ==> placed(
                        place,
                        cell_at(i),
                        #[trigger] spheres@[hand_placed.len() + i],
                    ),
                forall|i: int|
                    0 <= i < spheres@.len() ==> (#[trigger] spheres@[i]).material_index
                        < EXAMPLE_MATERIALS,
            decreases 10 - x,
        {
            let mut y: u32 = 0;
            while y < 10
                invariant
                    x < 10,
                    y <= 10,
                    places_all(place),
                    spheres@.len() == hand_placed.len() + x * 20 + y * 2,
                    spheres@.take(hand_placed.len() as int) == hand_placed,
                    forall|i: int|
                        0 <= i < x * 20 + y * 2 ==> placed(
                            place,
                            cell_at(i),
                            #[trigger] spheres@[hand_placed.len() + i],
                        ),
                    forall|i: int|
                        0 <= i < spheres@.len() ==> (#[trigger] spheres@[i]).material_index
                            < EXAMPLE_MATERIALS,
                decreases 10 - y,
            {
                let mut z: u32 = 1;
                while z < 3
                    invariant
                        x < 10,
                        y < 10,
                        1 <= z <= 3,
                        places_all(place),
                        spheres@.len() == hand_placed.len() + x * 20 + y * 2 + (z - 1),
                        spheres@.take(hand_placed.len() as int) == hand_placed,
                        forall|i: int|
                            0 <= i < x * 20 + y * 2 + (z - 1) ==> placed(
                                place,
                                cell_at(i),
                                #[trigger] spheres@[hand_placed.len() + i],
                            ),
                        forall|i: int|
                            0 <= i < spheres@.len() ==> (#[trigger] spheres@[i]).material_index
                                < EXAMPLE_MATERIALS,
                    decreases 3 - z,
                {
                    let ghost before = spheres@;
                    let ghost count = x * 20 + y * 2 + (z - 1);
                    let cell = grid_cell(x, y, z);
                    assert(cell == cell_at(count));
                    let (shape, scalar) = place(cell);
                    let sphere = Sphere::new(shape, material_slot(scalar));
                    assert(placed(place, cell_at(count), sphere));
                    spheres.push(sphere);
                    assert(spheres@.take(hand_placed.len() as int) =~= before.take(
                        hand_placed.len() as int,
                    ));
                    assert(forall|i: int|
                        0 <= i < count ==> #[trigger] spheres@[hand_placed.len() + i]
                            == before[hand_placed.len() + i]);
                    z += 1;
                }
                y += 1;
            }
            x += 1;
        }
        Scene { spheres, materials, camera }
    }

    /// The material of sphere `sphere_index`, where the scene has that sphere
    /// and the sphere's material.
    pub fn material(&self, sphere_index: usize) -> (material: Option<&M>)
        ensures
            material.is_some() <==> sphere_index < self.spheres@.len()
                && self.spheres@[sphere_index as int].material_index < self.materials@.len(),
            material.is_some() ==> *material.unwrap()
                == self.materials@[self.spheres@[sphere_index as int].material_index as int],
            self.well_formed() && sphere_index < self.spheres@.len() ==> material.is_some(),
    {
        if sphere_index >= self.spheres.len() {
            return None;
        }
        let material_index: usize = self.spheres[sphere_index].material_index as usize;
        if material_index >= self.materials.len() {
            return None;
        }
        Some(&self.materials[material_index])
    }

    /// Whether every sphere points at a material that the scene has.
    pub fn is_well_formed(&self) -> (valid: bool)
        ensures
            valid == self.well_formed(),
    {
        let mut i: usize = 0;
        while i < self.spheres.len()
            invariant
                i <= self.spheres@.len(),
                forall|k: int|
                    0 <= k < i ==> (#[trigger] self.spheres@[k]).material_index
                        < self.materials@.len(),
            decreases self.spheres@.len() - i,
        {
            if self.spheres[i].material_index as usize >= self.materials.len() {
                return false;
            }
            i += 1;
        }
        true
    }

    /// The name of a reserved material of the default scene.
    pub fn material_name(index: usize) -> (name: Option<&'static str>)
        ensures
            index == 0 ==> name.is_some() && name.unwrap()@ == "Ground"@,
            index == 1 ==> name.is_some() && name.unwrap()@ == "Sun"@,
            index == 2 ==> name.is_some() && name.unwrap()@ == "Light"@,
            index > 2 <==> name.is_none(),
    {
        match index {
            0 => Some("Ground"),
            1 => Some("Sun"),
            2 => Some("Light"),
            _ => None,
        }
    }
}

/// The default scene is reproducible: where `place` gives one result per
/// cell, two scenes built from the same hand-placed spheres hold the same
/// spheres in the same order.
pub proof fn lemma_example_scene_reproducible<G, M, C, F: Fn(GridCell) -> (G, usize)>(
    first: Seq<Sphere<G>>,
    second: Seq<Sphere<G>>,
    fixed: Seq<Sphere<G>>,
    place: F,
)
    requires
        forall|cell: GridCell, a: (G, usize), b: (G, usize)|
            call_ensures(place, (cell,), a) && call_ensures(place, (cell,), b) ==> a == b,
        Scene::<G, M, C>::scattered(first, fixed, place),
        Scene::<G, M, C>::scattered(second, fixed, place),
    ensures
        first == second,
{
    assert forall|k: int| 0 <= k < first.len() implies first[k] == second[k] by {
        if k < fixed.len() {
            assert(first.take(fixed.len() as int)[k] == second.take(fixed.len() as int)[k]);
        } else {
            let i = k - fixed.len();
            assert(placed(place, cell_at(i), first[fixed.len() + i]));
            assert(placed(place, cell_at(i), second[fixed.len() + i]));
        }
    }
    assert(first =~= second);
}

} // verus!
