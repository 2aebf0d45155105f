use path_tracer::camera::{Axis, Camera, Key, Motion};
use path_tracer::globals::Globals;
use path_tracer::image_util::ImageSize;
use path_tracer::math::{pcg_hash, rand_vec};
use path_tracer::scene::{grid_cell, material_slot, GridCell, Scene, EXAMPLE_CELLS, EXAMPLE_MATERIALS};
use path_tracer::sphere::Sphere;

fn place(cell: GridCell) -> ((u32, u32), usize) {
    ((cell.words.x, cell.words.y), cell.words.z as usize)
}

fn fixed() -> Vec<Sphere<(u32, u32)>> {
    vec![Sphere::new((0, 0), 0), Sphere::new((1, 1), 1), Sphere::new((2, 2), 4), Sphere::new((3, 3), 5)]
}

fn materials() -> Vec<&'static str> {
    vec!["ground", "sun", "light", "a", "b", "c", "d"]
}

#[test]
fn sphere_new_keeps_shape_and_material() {
    let sphere = Sphere::new([1u8, 2, 3], 4);
    assert_eq!(sphere.shape, [1, 2, 3]);
    assert_eq!(sphere.material_index, 4);
}

#[test]
fn grid_cell_seed_and_words() {
    let cell = grid_cell(0, 0, 1);
    assert_eq!(cell.seed, 78935);
    assert_eq!(cell.words, rand_vec(78935));
    assert_eq!(grid_cell(9, 9, 2).seed, 2631241);
    assert_eq!(grid_cell(3, 4, 1).seed, 1178210);
    assert_eq!((grid_cell(3, 4, 1).x, grid_cell(3, 4, 1).y, grid_cell(3, 4, 1).z), (3, 4, 1));
}

#[test]
fn material_slot_formula() {
    assert_eq!(material_slot(0), 3);
    assert_eq!(material_slot(0x587439), 2);
    assert_eq!(material_slot(12345), 3);
}

#[test]
fn material_slot_skips_the_reserved_slots() {
    for scalar in 0..1000usize {
        let slot = material_slot(scalar * 7919) as usize;
        assert!((2..EXAMPLE_MATERIALS).contains(&slot));
    }
}

#[test]
fn example_scene_has_fixed_then_scattered_spheres() {
    let scene = Scene::example_scene(fixed(), materials(), 'c', place);
    assert_eq!(scene.spheres.len(), 4 + EXAMPLE_CELLS);
    assert_eq!(scene.materials, materials());
    assert_eq!(scene.camera, 'c');
    for (i, sphere) in fixed().iter().enumerate() {
        assert_eq!(scene.spheres[i].shape, sphere.shape);
        assert_eq!(scene.spheres[i].material_index, sphere.material_index);
    }
    let mut i = 4;
    for x in 0..10 {
        for y in 0..10 {
            for z in 1..3 {
                let cell = grid_cell(x, y, z);
                assert_eq!(scene.spheres[i].shape, (cell.words.x, cell.words.y));
                assert_eq!(scene.spheres[i].material_index, material_slot(cell.words.z as usize));
                i += 1;
            }
        }
    }
    assert!(scene.is_well_formed());
}

#[test]
fn example_scene_is_reproducible() {
    let first = Scene::example_scene(fixed(), materials(), 'c', place);
    let second = Scene::example_scene(fixed(), materials(), 'c', place);
    assert_eq!(first.spheres.len(), second.spheres.len());
    for (a, b) in first.spheres.iter().zip(second.spheres.iter()) {
        assert_eq!(a.shape, b.shape);
        assert_eq!(a.material_index, b.material_index);
    }
    assert_eq!(first.materials, second.materials);
}

#[test]
fn material_lookup_is_bounds_checked() {
    let scene = Scene { spheres: vec![Sphere::new((), 1), Sphere::new((), 2)], materials: vec!['a', 'b'], camera: () };
    assert_eq!(scene.material(0), Some(&'b'));
    assert_eq!(scene.material(1), None);
    assert_eq!(scene.material(2), None);
    assert!(!scene.is_well_formed());
    let empty: Scene<(), char, ()> = Scene { spheres: Vec::new(), materials: Vec::new(), camera: () };
    assert!(empty.is_well_formed());
    assert_eq!(empty.material(0), None);
}

#[test]
fn material_names_of_the_reserved_slots() {
    assert_eq!(Scene::<(), (), ()>::material_name(0), Some("Ground"));
    assert_eq!(Scene::<(), (), ()>::material_name(1), Some("Sun"));
    assert_eq!(Scene::<(), (), ()>::material_name(2), Some("Light"));
    assert_eq!(Scene::<(), (), ()>::material_name(3), None);
    assert_eq!(Scene::<(), (), ()>::material_name(usize::MAX), None);
}

#[test]
fn globals_start_values_and_seed_advance() {
    let mut globals = Globals::new([0.9f32, 0.9, 0.9, 1.0]);
    assert_eq!(globals.seed, 0x5748);
    assert_eq!(globals.bounces, 8);
    globals.advance_seed();
    assert_eq!(globals.seed, 1161481895);
    globals.advance_seed();
    assert_eq!(globals.seed, pcg_hash(1161481895));
    assert_eq!(globals.bounces, 8);
    assert_eq!(globals.sky_color, [0.9f32, 0.9, 0.9, 1.0]);
}

#[test]
fn reseed_keeps_bounces_and_sky() {
    let mut globals = Globals::new(3u8);
    globals.bounces = 5;
    globals.reseed();
    assert_eq!(globals.bounces, 5);
    assert_eq!(globals.sky_color, 3);
    globals.set_seed(17);
    assert_eq!(globals.seed, 17);
    assert_eq!(globals.bounces, 5);
}

#[test]
fn keys_move_the_camera_along_its_axes() {
    let camera: Camera<(i32, i32)> = Camera::new(4, 3);
    assert_eq!(camera.on_keyboard_event(Some(Key::W)), Some(Motion { axis: Axis::Forward, along: true }));
    assert_eq!(camera.on_keyboard_event(Some(Key::S)), Some(Motion { axis: Axis::Forward, along: false }));
    assert_eq!(camera.on_keyboard_event(Some(Key::A)), Some(Motion { axis: Axis::Right, along: false }));
    assert_eq!(camera.on_keyboard_event(Some(Key::D)), Some(Motion { axis: Axis::Right, along: true }));
    assert_eq!(camera.on_keyboard_event(Some(Key::Q)), Some(Motion { axis: Axis::Up, along: false }));
    assert_eq!(camera.on_keyboard_event(Some(Key::E)), Some(Motion { axis: Axis::Up, along: true }));
    assert_eq!(camera.on_keyboard_event(Some(Key::Other)), None);
    assert_eq!(camera.on_keyboard_event(None), None);
}

#[test]
fn camera_resize_reports_a_change() {
    let mut camera: Camera<(i32, i32)> = Camera::new(4, 3);
    assert!(!camera.resize(ImageSize::new(4, 3)));
    assert!(camera.resize(ImageSize::new(4, 5)));
    assert_eq!(camera.viewport, ImageSize::new(4, 5));
    assert!(camera.resize(ImageSize::new(8, 5)));
    assert!(!camera.resize(ImageSize::new(8, 5)));
}

#[test]
fn drag_turns_from_the_second_place_on() {
    let mut camera: Camera<(i32, i32)> = Camera::new(1, 1);
    assert_eq!(camera.on_rotate((10, 10)), None);
    assert_eq!(camera.on_rotate((12, 9)), Some(((10, 10), (12, 9))));
    assert_eq!(camera.on_rotate((12, 9)), Some(((12, 9), (12, 9))));
    camera.last_mouse_position = None;
    assert_eq!(camera.on_rotate((0, 0)), None);
    assert_eq!(camera.last_mouse_position, Some((0, 0)));
}
