use std::cell::RefCell;

use path_tracer::image_util::ImageSize;
use path_tracer::math::derive_seed;
use path_tracer::render::{HitPayload, PathStep, PathWalk, FARTHEST_KEY};
use path_tracer::renderer::Renderer;

fn dot(a: [f32; 3], b: [f32; 3]) -> f32 {
    a[0] * b[0] + a[1] * b[1] + a[2] * b[2]
}

/// The key of the distance at which the ray meets the sphere, zero where it
/// does not meet it.
fn sphere_key(origin: [f32; 3], direction: [f32; 3], center: [f32; 3], radius: f32) -> u32 {
    if radius <= 0.0 {
        return 0;
    }
    let local = [origin[0] - center[0], origin[1] - center[1], origin[2] - center[2]];
    let a = dot(direction, direction);
    let b = 2.0 * dot(local, direction);
    let c = dot(local, local) - radius * radius;
    let discriminant = b * b - 4.0 * a * c;
    if discriminant < 0.0 {
        return 0;
    }
    ((-b - discriminant.sqrt()) / (2.0 * a)).to_bits()
}

fn tracer() -> Renderer<f32> {
    Renderer::new(ImageSize::new(1, 1), 0.0, 0)
}

#[test]
fn ray_aimed_away_misses_and_yields_the_sky() {
    let key = sphere_key([0.0, 0.0, -10.0], [0.0, 1.0, 0.0], [0.0, 0.0, 0.0], 1.0);
    assert_eq!(tracer().trace_ray(&vec![key]), None);

    let sky = [0.8f32, 0.8, 1.0];
    let mut walk = PathWalk::begin(8, 1, 0);
    assert!(matches!(walk.next_step(), PathStep::Trace { bounce: 0, .. }));
    walk.on_miss();
    let PathStep::Average { divisor } = walk.next_step() else {
        panic!("a path that missed is averaged");
    };
    assert_eq!(divisor, 1);
    let radiance = [sky[0] / divisor as f32, sky[1] / divisor as f32, sky[2] / divisor as f32];
    assert_eq!(radiance, sky);
}

#[test]
fn ray_through_the_centre_hits_at_distance_four() {
    let origin = [0.0f32, 0.0, -5.0];
    let direction = [0.0f32, 0.0, 1.0];
    let key = sphere_key(origin, direction, [0.0, 0.0, 0.0], 1.0);
    let hit = tracer().trace_ray(&vec![key]);
    assert_eq!(hit, Some(HitPayload { hit_distance: 0x4080_0000, index: 0 }));
    let t = f32::from_bits(hit.unwrap().hit_distance);
    assert_eq!(t, 4.0);
    let point = [origin[0] + t * direction[0], origin[1] + t * direction[1], origin[2] + t * direction[2]];
    assert_eq!(point, [0.0, 0.0, -1.0]);
    let length = dot(point, point).sqrt();
    assert_eq!([point[0] / length, point[1] / length, point[2] / length], [0.0, 0.0, -1.0]);
}

#[test]
fn empty_scene_misses() {
    assert_eq!(tracer().trace_ray(&Vec::new()), None);
}

#[test]
fn nearest_of_several_spheres_wins() {
    let keys = vec![5.0f32.to_bits(), 0, 2.5f32.to_bits(), 9.0f32.to_bits()];
    assert_eq!(
        tracer().trace_ray(&keys),
        Some(HitPayload { hit_distance: 2.5f32.to_bits(), index: 2 })
    );
}

#[test]
fn earlier_sphere_wins_a_tie() {
    let keys = vec![3.0f32.to_bits(), 1.0f32.to_bits(), 1.0f32.to_bits()];
    assert_eq!(tracer().trace_ray(&keys).map(|hit| hit.index), Some(1));
}

#[test]
fn keys_that_do_not_count_are_passed_over() {
    let keys = vec![
        0.0f32.to_bits(),
        (-0.0f32).to_bits(),
        (-1.0f32).to_bits(),
        f32::INFINITY.to_bits(),
        f32::NAN.to_bits(),
        f32::MAX.to_bits(),
    ];
    assert_eq!(f32::MAX.to_bits(), FARTHEST_KEY);
    assert_eq!(tracer().trace_ray(&keys), None);
    let mut with_hit = keys.clone();
    with_hit.push(f32::MIN_POSITIVE.to_bits());
    assert_eq!(tracer().trace_ray(&with_hit).map(|hit| hit.index), Some(6));
}

#[test]
fn key_order_is_distance_order() {
    let distances = [1.0e-30f32, 1.0e-3, 0.5, 1.0, 4.0, 1000.4, 3.0e38];
    for pair in distances.windows(2) {
        assert!(pair[0].to_bits() < pair[1].to_bits());
    }
}

#[test]
fn sphere_without_radius_is_never_hit() {
    for radius in [0.0f32, -1.0] {
        let key = sphere_key([0.0, 0.0, -5.0], [0.0, 0.0, 1.0], [0.0, 0.0, 0.0], radius);
        assert_eq!(tracer().trace_ray(&vec![key]), None);
    }
}

#[test]
fn closest_hit_and_miss_payloads() {
    assert_eq!(tracer().closest_hit(77, 3), HitPayload { hit_distance: 77, index: 3 });
    assert_eq!(tracer().miss(), None);
}

#[test]
fn zero_bounces_is_the_sky_alone() {
    let walk = PathWalk::begin(0, 1, 2);
    assert_eq!(walk.next_step(), PathStep::Sky);
}

#[test]
fn path_takes_all_bounces_when_it_keeps_hitting() {
    let mut walk = PathWalk::begin(3, 10, 20);
    for bounce in 0..3u32 {
        assert_eq!(
            walk.next_step(),
            PathStep::Trace { bounce, seed: derive_seed(10, 20, bounce) }
        );
        walk.on_hit();
    }
    assert_eq!(walk.next_step(), PathStep::Average { divisor: 3 });
    assert_eq!(walk.taken, 3);
    assert!(!walk.missed);
}

#[test]
fn path_ends_at_the_first_miss() {
    let mut walk = PathWalk::begin(8, 0, 0);
    walk.on_hit();
    walk.on_hit();
    walk.on_miss();
    assert_eq!(walk.next_step(), PathStep::Average { divisor: 3 });
    assert!(walk.missed);
}

/// A ray with the light gathered so far and what it still lets through.
#[derive(Clone, Copy, Debug, PartialEq)]
struct Path {
    origin: [f32; 3],
    direction: [f32; 3],
    light: f32,
    contribution: f32,
}

const SKY: f32 = 0.75;

fn unit_sphere_keys(path: Path) -> Vec<u32> {
    vec![sphere_key(path.origin, path.direction, [0.0, 0.0, 0.0], 1.0)]
}

fn escape(path: Path) -> Path {
    Path { light: path.light + SKY * path.contribution, ..path }
}

fn finish(path: Path, divisor: u32) -> f32 {
    path.light / divisor as f32
}

#[test]
fn per_pixel_returns_the_sky_on_a_miss() {
    let start = Path { origin: [0.0, 0.0, -10.0], direction: [0.0, 1.0, 0.0], light: 0.0, contribution: 1.0 };
    let sample = tracer().per_pixel(
        0,
        0,
        8,
        start,
        unit_sphere_keys,
        |_: Path, _: HitPayload, _: u32| panic!("nothing is hit"),
        escape,
        finish,
    );
    assert_eq!(sample, SKY);
}

#[test]
fn per_pixel_without_bounces_is_the_sky_untraced() {
    let start = Path { origin: [0.0, 0.0, -5.0], direction: [0.0, 0.0, 1.0], light: 0.0, contribution: 1.0 };
    let sample = tracer().per_pixel(
        0,
        0,
        0,
        start,
        |_: Path| panic!("no ray is intersected"),
        |_: Path, _: HitPayload, _: u32| panic!("nothing is hit"),
        escape,
        finish,
    );
    assert_eq!(sample, SKY);
}

#[test]
fn per_pixel_seeds_each_bounce_and_divides_by_all_taken() {
    let renderer: Renderer<f32> = Renderer::new(ImageSize::new(4, 3), 0.0, 31);
    let seeds = RefCell::new(Vec::new());
    let start = Path { origin: [0.0, 0.0, -5.0], direction: [0.0, 0.0, 1.0], light: 0.0, contribution: 1.0 };
    let sample = renderer.per_pixel(
        2,
        1,
        3,
        start,
        unit_sphere_keys,
        |path: Path, hit: HitPayload, seed: u32| {
            seeds.borrow_mut().push(seed);
            assert_eq!(hit, HitPayload { hit_distance: 4.0f32.to_bits(), index: 0 });
            Path { light: path.light + 1.5, ..path }
        },
        escape,
        finish,
    );
    assert_eq!(sample, 1.5);
    assert_eq!(
        *seeds.borrow(),
        vec![derive_seed(31, 6, 0), derive_seed(31, 6, 1), derive_seed(31, 6, 2)]
    );
}

#[test]
fn per_pixel_divides_by_the_bounces_taken_when_it_escapes_early() {
    let start = Path { origin: [0.0, 0.0, -5.0], direction: [0.0, 0.0, 1.0], light: 0.0, contribution: 1.0 };
    let sample = tracer().per_pixel(
        0,
        0,
        8,
        start,
        unit_sphere_keys,
        |path: Path, _: HitPayload, _: u32| Path {
            origin: [0.0, 0.0, -1.0],
            direction: [0.0, 0.0, -1.0],
            light: path.light + 2.0,
            contribution: path.contribution * 0.5,
        },
        escape,
        finish,
    );
    assert_eq!(sample, (2.0 + SKY * 0.5) / 2.0);
}

#[test]
fn per_pixel_is_repeatable() {
    let start = Path { origin: [0.0, 0.0, -5.0], direction: [0.0, 0.0, 1.0], light: 0.0, contribution: 1.0 };
    let shade = || {
        tracer().per_pixel(
            0,
            0,
            4,
            start,
            unit_sphere_keys,
            |path: Path, _: HitPayload, seed: u32| Path {
                light: path.light + (seed % 1000) as f32,
                contribution: path.contribution * 0.5,
                ..path
            },
            escape,
            finish,
        )
    };
    assert_eq!(shade().to_bits(), shade().to_bits());
}

#[test]
fn radiance_stays_under_the_sky_without_emission() {
    for albedo in [0.0f32, 0.3, 1.0] {
        let start = Path { origin: [0.0, 0.0, -5.0], direction: [0.0, 0.0, 1.0], light: 0.0, contribution: 1.0 };
        let sample = tracer().per_pixel(
            0,
            0,
            6,
            start,
            |path: Path| if path.contribution > 0.2 { unit_sphere_keys(path) } else { vec![0] },
            |path: Path, _: HitPayload, _: u32| Path { contribution: path.contribution * albedo, ..path },
            escape,
            finish,
        );
        assert!((0.0..=SKY).contains(&sample));
    }
}
