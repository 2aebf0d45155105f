use path_tracer::math::{derive_seed, in_unit_sphere, pcg_hash, rand_vec, HashVec3};

#[test]
fn pcg_hash_known_values() {
    assert_eq!(pcg_hash(0), 129708002);
    assert_eq!(pcg_hash(1), 2831084092);
    assert_eq!(pcg_hash(2), 2055130248);
    assert_eq!(pcg_hash(42), 1223963391);
    assert_eq!(pcg_hash(0x5748), 1161481895);
}

#[test]
fn pcg_hash_wraps_at_largest_seed() {
    assert_eq!(pcg_hash(u32::MAX), 3861530882);
}

#[test]
fn pcg_hash_is_repeatable() {
    for seed in [0u32, 7, 1 << 31, u32::MAX] {
        assert_eq!(pcg_hash(seed), pcg_hash(seed));
    }
}

#[test]
fn rand_vec_chains_three_hashes() {
    let v = rand_vec(42);
    assert_eq!(v, HashVec3 { x: 1223963391, y: 2785308739, z: 4004461565 });
    assert_eq!(v.y, pcg_hash(v.x));
    assert_eq!(v.z, pcg_hash(v.y));
}

#[test]
fn rand_vec_of_zero() {
    assert_eq!(rand_vec(0), HashVec3 { x: 129708002, y: 817759070, z: 2145236065 });
}

#[test]
fn rand_vec_components_lie_in_unit_interval() {
    for seed in 0u32..64 {
        let v = rand_vec(seed);
        for word in [v.x, v.y, v.z] {
            let value = word as f32 / u32::MAX as f32;
            assert!((0.0..=1.0).contains(&value));
        }
    }
}

#[test]
fn in_unit_sphere_words() {
    let v = in_unit_sphere(7);
    assert_eq!(v, HashVec3 { x: 2120684060, y: 3609818057, z: 2158420637 });
    assert_eq!(v.x, pcg_hash(7));
    assert_eq!(v.y, pcg_hash(7 ^ v.x));
    assert_eq!(v.z, pcg_hash(v.x));
}

#[test]
fn derive_seed_formula() {
    assert_eq!(derive_seed(5, 9, 2), 233347714);
    assert_eq!(derive_seed(0x5748, 0, 0), 260169969);
    assert_eq!(derive_seed(5, 9, 2), pcg_hash(5 ^ 9 ^ pcg_hash(2)));
}

#[test]
fn derive_seed_varies_with_each_input() {
    let base = derive_seed(1, 2, 3);
    assert_ne!(base, derive_seed(2, 2, 3));
    assert_ne!(base, derive_seed(1, 3, 3));
    assert_ne!(base, derive_seed(1, 2, 4));
}
