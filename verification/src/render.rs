//! The decisions of the path-tracing kernel: which sphere a ray meets first
//! and how a path walks through its bounces.
//!
//! A hit distance is handled here as a key: the bit pattern of the distance
//! as a single-precision number. For distances above zero and below the
//! largest finite one, keys are ordered as the distances are, and every other
//! pattern (zero, negative, infinite, not a number) lies outside that range.
//! So the nearest hit is the smallest key that counts.

use vstd::prelude::*;
use crate::math::{derive_seed, derive_seed_spec};
use crate::renderer::Renderer;

verus! {

/// The key of the largest finite distance. A hit has to be nearer.
pub const FARTHEST_KEY: u32 = 0x7f7f_ffff;

/// Whether a key stands for a hit: a distance above zero and below the
/// largest finite one.
pub open spec fn key_counts(key: u32) -> bool {
    0 < key < FARTHEST_KEY
}

/// Whether sphere `index` is the nearest hit among `keys`: its key counts, no
/// key that counts is smaller, and no earlier sphere has the same key.
pub open spec fn is_closest(keys: Seq<u32>, index: int) -> bool {
    &&& 0 <= index < keys.len()
    &&& key_counts(keys[index])
    &&& forall|j: int| 0 <= j < keys.len() && key_counts(#[trigger] keys[j]) ==> keys[index] <= keys[j]
    &&& forall|j: int| 0 <= j < index && key_counts(#[trigger] keys[j]) ==> keys[index] < keys[j]
}

/// Whether no sphere is hit at all.
pub open spec fn all_missed(keys: Seq<u32>) -> bool {
    forall|j: int| 0 <= j < keys.len() ==> !key_counts(#[trigger] keys[j])
}

/// What is known of a hit: which sphere, and the key of the distance.
#[derive(Clone, Copy, Debug, PartialEq, Eq)]
pub struct HitPayload {
    pub hit_distance: u32,
    pub index: usize,
}

/// Whether `hit` is what a ray with the distance keys `keys` meets first: the
/// nearest sphere with its key, or nothing where every sphere is missed.
pub open spec fn hit_of(keys: Seq<u32>, hit: Option<HitPayload>) -> bool {
    match hit {
        Some(payload) => is_closest(keys, payload.index as int) && payload.hit_distance
            == keys[payload.index as int],
        None => all_missed(keys),
    }
}

/// Whether one bounce leads from `from` to `to` by a hit: the ray of `from`
/// meets a sphere first, and `to` is an outcome of `scatter` for that hit and
/// the bounce's seed.
pub open spec fn hit_step<S, I: Fn(S) -> Vec<u32>, H: Fn(S, HitPayload, u32) -> S>(
    intersect: I,
    scatter: H,
    seed: u32,
    from: S,
    to: S,
) -> bool {
    exists|keys: Vec<u32>, payload: HitPayload|
        {
            &&& #[trigger] call_ensures(intersect, (from,), keys)
            &&& hit_of(keys@, Some(payload))
            &&& #[trigger] call_ensures(scatter, (from, payload, seed), to)
        }
}

/// Whether one bounce leads from `from` to `to` by a miss: the ray of `from`
/// meets no sphere, and `to` is an outcome of `escape`.
pub open spec fn miss_step<S, I: Fn(S) -> Vec<u32>, M: Fn(S) -> S>(
    intersect: I,
    escape: M,
    from: S,
    to: S,
) -> bool {
    &&& call_ensures(escape, (from,), to)
    &&& exists|keys: Vec<u32>| #[trigger] call_ensures(intersect, (from,), keys) && all_missed(keys@)
}

/// Whether `trail` is the walk of a path: its states from the first ray to
/// the last, one per bounce taken. Every bounce but the last hits a sphere;
/// the last one misses, or is the last bounce allowed. Bounce `k` scatters
/// with the seed derived from the frame's seed, the pixel and `k`. Where no
/// bounce is allowed the ray escapes at once, untraced.
pub open spec fn walked<
    S,
    I: Fn(S) -> Vec<u32>,
    H: Fn(S, HitPayload, u32) -> S,
    M: Fn(S) -> S,
>(
    intersect: I,
    scatter: H,
    escape: M,
    base_seed: u32,
    pixel_index: u32,
    bounces: u32,
    trail: Seq<S>,
) -> bool {
    let taken = trail.len() - 1;
    &&& trail.len() >= 2
    &&& if bounces == 0 {
        taken == 1 && call_ensures(escape, (trail[0],), trail[1])
    } else {
        &&& taken <= bounces
        &&& forall|k: int|
            0 <= k < taken - 1 ==> hit_step(
                intersect,
                scatter,
                derive_seed_spec(base_seed, pixel_index, k as u32),
                trail[k],
                #[trigger] trail[k + 1],
            )
        &&& {
            ||| miss_step(intersect, escape, trail[taken - 1], trail[taken])
            ||| taken == bounces && hit_step(
                intersect,
                scatter,
                derive_seed_spec(base_seed, pixel_index, (taken - 1) as u32),
                trail[taken - 1],
                trail[taken],
            )
        }
    }
}

impl<T: Copy> Renderer<T> {
    /// Finds the nearest sphere that a ray hits. `keys` holds, for each
    /// sphere of the scene in order, the key of the distance at which the ray
    /// meets it, or a key that does not count where it does not. The scan is
    /// linear, and of two spheres at the same distance the earlier one wins.
    pub fn trace_ray(&self, keys: &Vec<u32>) -> (hit: Option<HitPayload>)
        ensures
            hit_of(keys@, hit),
    {
        let mut hit_distance: u32 = FARTHEST_KEY;
        let mut closest_index: Option<usize> = None;
        let mut i: usize = 0;
        while i < keys.len()
            invariant
                i <= keys@.len(),
                match closest_index {
                    Some(index) => is_closest(keys@.take(i as int), index as int) && hit_distance
                        == keys@[index as int],
                    None => all_missed(keys@.take(i as int)) && hit_distance == FARTHEST_KEY,
                },
            decreases keys@.len() - i,
        {
            let closest_t: u32 = keys[i];
            let ghost before = keys@.take(i as int);
            let ghost after = keys@.take(i + 1);
            assert(forall|j: int| 0 <= j < i ==> before[j] == after[j]);
            assert(after[i as int] == closest_t);
            if closest_t > 0 && closest_t < hit_distance {
                hit_distance = closest_t;
                closest_index = Some(i);
            }
            i += 1;
        }
        assert(keys@.take(i as int) =~= keys@);
        match closest_index {
            None => self.miss(),
            Some(index) => Some(self.closest_hit(hit_distance, index)),
        }
    }

    /// Walks the path of pixel `(x, y)` from the state `start` and returns
    /// the pixel's sample. The state is the caller's: the ray and the light
    /// gathered along it. For each bounce `intersect` gives the distance keys
    /// of the state's ray against the spheres; on a hit `scatter` moves the
    /// state on with the hit and the bounce's seed, on a miss `escape` adds
    /// the sky and the path ends. `finish` divides by the bounces taken. With
    /// no bounce allowed nothing is intersected: the state escapes and is
    /// finished with divisor one.
    pub fn per_pixel<
        S: Copy,
        I: Fn(S) -> Vec<u32>,
        H: Fn(S, HitPayload, u32) -> S,
        M: Fn(S) -> S,
        F: Fn(S, u32) -> T,
    >(
        &self,
        x: u32,
        y: u32,
        bounces: u32,
        start: S,
        intersect: I,
        scatter: H,
        escape: M,
        finish: F,
    ) -> (sample: T)
        requires
            x < self@.size.width,
            y < self@.size.height,
            self@.size.pixel_count() <= usize::MAX,
            forall|state: S| call_requires(intersect, (state,)),
            forall|state: S, payload: HitPayload, seed: u32|
                call_requires(scatter, (state, payload, seed)),
            forall|state: S| call_requires(escape, (state,)),
            forall|state: S, divisor: u32| divisor >= 1 ==> call_requires(finish, (state, divisor)),
        ensures
            exists|trail: Seq<S>|
                {
                    &&& #[trigger] walked(
                        intersect,
                        scatter,
                        escape,
                        self@.seed,
                        self@.size.index_of_spec(x, y) as u32,
                        bounces,
                        trail,
                    )
                    &&& trail[0] == start
                    &&& call_ensures(finish, (trail.last(), (trail.len() - 1) as u32), sample)
                },
    {
        let size = self.size();
        let base_seed: u32 = self.seed();
        let pixel_index: u32 = size.index_of(x, y) as u32;
        let mut walk = PathWalk::begin(bounces, base_seed, pixel_index);
        let mut state: S = start;
        let ghost mut trail: Seq<S> = seq![start];
        loop
            invariant
                walk.well_formed(),
                walk.bounces == bounces,
                walk.base_seed == base_seed,
                walk.pixel_index == pixel_index,
                base_seed == self@.seed,
                pixel_index == self@.size.index_of_spec(x, y) as u32,
                trail.len() == walk.taken + 1,
                trail[0] == start,
                trail.last() == state,
                forall|state: S| call_requires(intersect, (state,)),
                forall|state: S, payload: HitPayload, seed: u32|
                    call_requires(scatter, (state, payload, seed)),
                forall|state: S| call_requires(escape, (state,)),
                forall|state: S, divisor: u32|
                    divisor >= 1 ==> call_requires(finish, (state, divisor)),
                forall|k: int|
                    0 <= k < walk.taken - 1 ==> hit_step(
                        intersect,
                        scatter,
                        derive_seed_spec(base_seed, pixel_index, k as u32),
                        trail[k],
                        #[trigger] trail[k + 1],
                    ),
                walk.taken >= 1 ==> if walk.missed {
                    miss_step(intersect, escape, trail[walk.taken - 1], trail[walk.taken as int])
                } else {
                    hit_step(
                        intersect,
                        scatter,
                        derive_seed_spec(base_seed, pixel_index, (walk.taken - 1) as u32),
                        trail[walk.taken - 1],
                        trail[walk.taken as int],
                    )
                },
            decreases bounces - walk.taken + (if walk.missed { 0int } else { 1int }),
        {
            match walk.next_step() {
                PathStep::Sky => {
                    let escaped: S = escape(state);
                    proof {
                        trail = trail.push(escaped);
                        assert(walked(
                            intersect,
                            scatter,
                            escape,
                            base_seed,
                            pixel_index,
                            bounces,
                            trail,
                        ));
                    }
                    return finish(escaped, 1);
                },
                PathStep::Average { divisor } => {
                    proof {
                        assert(walked(
                            intersect,
                            scatter,
                            escape,
                            base_seed,
                            pixel_index,
                            bounces,
                            trail,
                        ));
                    }
                    return finish(state, divisor);
                },
                PathStep::Trace { bounce, seed } => {
                    let ghost before = trail;
                    let keys: Vec<u32> = intersect(state);
                    match self.trace_ray(&keys) {
                        None => {
                            let next: S = escape(state);
                            walk.on_miss();
                            proof {
                                trail = trail.push(next);
                                assert(miss_step(intersect, escape, state, next));
                            }
                            state = next;
                        },
                        Some(payload) => {
                            let next: S = scatter(state, payload, seed);
                            walk.on_hit();
                            proof {
                                trail = trail.push(next);
                                assert(hit_step(intersect, scatter, seed, state, next));
                            }
                            state = next;
                        },
                    }
                    proof {
                        assert(forall|k: int| 0 <= k < before.len() ==> trail[k] == before[k]);
                    }
                },
            }
        }
    }

    /// The payload of a hit on sphere `object_index` at the distance with key
    /// `hit_distance`.
    pub fn closest_hit(&self, hit_distance: u32, object_index: usize) -> (payload: HitPayload)
        ensures
            payload == (HitPayload { hit_distance, index: object_index }),
    {
        HitPayload { hit_distance, index: object_index }
    }

    /// The payload of a ray that hits nothing: there is none.
    pub fn miss(&self) -> (hit: Option<HitPayload>)
        ensures
            hit.is_none(),
    {
        None
    }
}

/// Of any list of keys exactly one holds: nothing is hit, or there is a
/// nearest hit, and then only one sphere is it.
pub proof fn lemma_closest_is_unique(keys: Seq<u32>, first: int, second: int)
    requires
        is_closest(keys, first),
        is_closest(keys, second),
    ensures
        first == second,
        !all_missed(keys),
{
}

/// Whether the closures of a path give one result for each input, so that
/// shading is a function of its inputs.
pub open spec fn shades_one<
    S,
    T,
    I: Fn(S) -> Vec<u32>,
    H: Fn(S, HitPayload, u32) -> S,
    M: Fn(S) -> S,
    F: Fn(S, u32) -> T,
>(intersect: I, scatter: H, escape: M, finish: F) -> bool {
    &&& forall|input: (S,), first: Vec<u32>, second: Vec<u32>|
        call_ensures(intersect, input, first) && call_ensures(intersect, input, second) ==> first
            == second
    &&& forall|input: (S, HitPayload, u32), first: S, second: S|
        call_ensures(scatter, input, first) && call_ensures(scatter, input, second) ==> first
            == second
    &&& forall|input: (S,), first: S, second: S|
        call_ensures(escape, input, first) && call_ensures(escape, input, second) ==> first
            == second
    &&& forall|input: (S, u32), first: T, second: T|
        call_ensures(finish, input, first) && call_ensures(finish, input, second) ==> first
            == second
}

/// Whether a bounce leads from `from` to `to`, by a hit or by a miss.
pub open spec fn bounce_step<
    S,
    I: Fn(S) -> Vec<u32>,
    H: Fn(S, HitPayload, u32) -> S,
    M: Fn(S) -> S,
>(intersect: I, scatter: H, escape: M, seed: u32, from: S, to: S) -> bool {
    hit_step(intersect, scatter, seed, from, to) || miss_step(intersect, escape, from, to)
}

/// One bounce from one state has one outcome: two bounces from the same
/// state with the same seed both hit or both miss, and lead to the same state.
pub proof fn lemma_bounce_is_determined<
    S,
    T,
    I: Fn(S) -> Vec<u32>,
    H: Fn(S, HitPayload, u32) -> S,
    M: Fn(S) -> S,
    F: Fn(S, u32) -> T,
>(intersect: I, scatter: H, escape: M, finish: F, seed: u32, from: S, first: S, second: S)
    requires
        shades_one(intersect, scatter, escape, finish),
        bounce_step(intersect, scatter, escape, seed, from, first),
        bounce_step(intersect, scatter, escape, seed, from, second),
    ensures
        first == second,
        hit_step(intersect, scatter, seed, from, first) <==> hit_step(
            intersect,
            scatter,
            seed,
            from,
            second,
        ),
        hit_step(intersect, scatter, seed, from, first) <==> !miss_step(
            intersect,
            escape,
            from,
            first,
        ),
{
    let first_hits = hit_step(intersect, scatter, seed, from, first);
    let second_hits = hit_step(intersect, scatter, seed, from, second);
    let first_misses = miss_step(intersect, escape, from, first);
    let second_misses = miss_step(intersect, escape, from, second);
    if first_hits {
        let (keys, payload): (Vec<u32>, HitPayload) = choose|keys: Vec<u32>, payload: HitPayload|
            {
                &&& #[trigger] call_ensures(intersect, (from,), keys)
                &&& hit_of(keys@, Some(payload))
                &&& #[trigger] call_ensures(scatter, (from, payload, seed), first)
            };
        if first_misses {
            let other = choose|other: Vec<u32>| #[trigger]
                call_ensures(intersect, (from,), other) && all_missed(other@);
            assert(keys == other);
        }
        if second_misses {
            let other = choose|other: Vec<u32>| #[trigger]
                call_ensures(intersect, (from,), other) && all_missed(other@);
            assert(keys == other);
        }
        if second_hits {
            let (keys2, payload2): (Vec<u32>, HitPayload) = choose|
                keys2: Vec<u32>,
                payload2: HitPayload,
            |
                {
                    &&& #[trigger] call_ensures(intersect, (from,), keys2)
                    &&& hit_of(keys2@, Some(payload2))
                    &&& #[trigger] call_ensures(scatter, (from, payload2, seed), second)
                };
            assert(keys == keys2);
            lemma_closest_is_unique(keys@, payload.index as int, payload2.index as int);
            assert(payload == payload2);
        }
    } else {
        let missed = choose|missed: Vec<u32>| #[trigger]
            call_ensures(intersect, (from,), missed) && all_missed(missed@);
        if second_hits {
            let (keys2, payload2): (Vec<u32>, HitPayload) = choose|
                keys2: Vec<u32>,
                payload2: HitPayload,
            |
                {
                    &&& #[trigger] call_ensures(intersect, (from,), keys2)
                    &&& hit_of(keys2@, Some(payload2))
                    &&& #[trigger] call_ensures(scatter, (from, payload2, seed), second)
                };
            assert(missed == keys2);
        }
    }
}

/// Two walks of one path agree on every state that both have.
proof fn lemma_walks_share_prefix<
    S,
    T,
    I: Fn(S) -> Vec<u32>,
    H: Fn(S, HitPayload, u32) -> S,
    M: Fn(S) -> S,
    F: Fn(S, u32) -> T,
>(
    intersect: I,
    scatter: H,
    escape: M,
    finish: F,
    base_seed: u32,
    pixel_index: u32,
    bounces: u32,
    first: Seq<S>,
    second: Seq<S>,
    k: int,
)
    requires
        shades_one(intersect, scatter, escape, finish),
        bounces > 0,
        walked(intersect, scatter, escape, base_seed, pixel_index, bounces, first),
        walked(intersect, scatter, escape, base_seed, pixel_index, bounces, second),
        first[0] == second[0],
        0 <= k < first.len(),
        k < second.len(),
    ensures
        first[k] == second[k],
        k >= 1 ==> (k == first.len() - 1 <==> k == second.len() - 1),
    decreases k,
{
    if k >= 1 {
        lemma_walks_share_prefix(
            intersect,
            scatter,
            escape,
            finish,
            base_seed,
            pixel_index,
            bounces,
            first,
            second,
            k - 1,
        );
        let seed = derive_seed_spec(base_seed, pixel_index, (k - 1) as u32);
        let from = first[k - 1];
        assert(hit_step(intersect, scatter, seed, from, first[k]) || miss_step(
            intersect,
            escape,
            from,
            first[k],
        )) by {
            if k - 1 < first.len() - 2 {
                assert(first[k - 1 + 1] == first[k]);
            }
        }
        assert(hit_step(intersect, scatter, seed, from, second[k]) || miss_step(
            intersect,
            escape,
            from,
            second[k],
        )) by {
            if k - 1 < second.len() - 2 {
                assert(second[k - 1 + 1] == second[k]);
            }
        }
        lemma_bounce_is_determined(
            intersect,
            scatter,
            escape,
            finish,
            seed,
            from,
            first[k],
            second[k],
        );
        if k < first.len() - 1 {
            assert(first[k - 1 + 1] == first[k]);
        }
        if k < second.len() - 1 {
            assert(second[k - 1 + 1] == second[k]);
        }
    }
}

/// Shading is a function of its inputs. Where each closure gives one result
/// per input, a path from one start with one seed, pixel and bounce limit has
/// one walk and one sample: shading a pixel twice yields the same value.
pub proof fn lemma_per_pixel_is_determined<
    S,
    T,
    I: Fn(S) -> Vec<u32>,
    H: Fn(S, HitPayload, u32) -> S,
    M: Fn(S) -> S,
    F: Fn(S, u32) -> T,
>(
    intersect: I,
    scatter: H,
    escape: M,
    finish: F,
    base_seed: u32,
    pixel_index: u32,
    bounces: u32,
    first: Seq<S>,
    second: Seq<S>,
    first_sample: T,
    second_sample: T,
)
    requires
        shades_one(intersect, scatter, escape, finish),
        walked(intersect, scatter, escape, base_seed, pixel_index, bounces, first),
        walked(intersect, scatter, escape, base_seed, pixel_index, bounces, second),
        first[0] == second[0],
        call_ensures(finish, (first.last(), (first.len() - 1) as u32), first_sample),
        call_ensures(finish, (second.last(), (second.len() - 1) as u32), second_sample),
    ensures
        first == second,
        first_sample == second_sample,
{
    if bounces > 0 {
        let shared = if first.len() <= second.len() {
            first.len() - 1
        } else {
            second.len() - 1
        };
        lemma_walks_share_prefix(
            intersect,
            scatter,
            escape,
            finish,
            base_seed,
            pixel_index,
            bounces,
            first,
            second,
            shared,
        );
        assert(first.len() == second.len());
        assert forall|k: int| 0 <= k < first.len() implies first[k] == second[k] by {
            lemma_walks_share_prefix(
                intersect,
                scatter,
                escape,
                finish,
                base_seed,
                pixel_index,
                bounces,
                first,
                second,
                k,
            );
        }
    }
    assert(first =~= second);
}

/// What the kernel does next for a path.
#[derive(Clone, Copy, Debug, PartialEq, Eq)]
pub enum PathStep {
    /// Intersect the ray with the scene; `seed` drives the scatter of this
    /// bounce.
    Trace { bounce: u32, seed: u32 },
    /// The path is over: the light gathered is divided by `divisor`.
    Average { divisor: u32 },
    /// No bounce is allowed: the pixel is the sky colour as it is.
    Sky,
}

/// The progress of one pixel's path through its bounces.
#[derive(Clone, Copy, Debug, PartialEq, Eq)]
pub struct PathWalk {
    /// The most bounces the path may take.
    pub bounces: u32,
    /// The bounces taken so far, the one that missed included.
    pub taken: u32,
    /// Whether the last bounce taken missed every sphere.
    pub missed: bool,
    /// The seed of the frame.
    pub base_seed: u32,
    /// The pixel's index in the image.
    pub pixel_index: u32,
}

impl PathWalk {
    /// A path never takes more bounces than allowed, and one that missed has
    /// taken the bounce that missed.
    pub open spec fn well_formed(self) -> bool {
        &&& self.taken <= self.bounces
        &&& self.missed ==> self.taken >= 1
    }

    /// The next step: the sky alone where no bounce is allowed; the average
    /// once a bounce missed or all bounces are taken; else one more bounce,
    /// seeded by frame, pixel and bounce.
    pub open spec fn step_spec(self) -> PathStep {
        if self.bounces == 0 {
            PathStep::Sky
        } else if self.missed || self.taken == self.bounces {
            PathStep::Average { divisor: self.taken }
        } else {
            PathStep::Trace {
                bounce: self.taken,
                seed: derive_seed_spec(self.base_seed, self.pixel_index, self.taken),
            }
        }
    }

    /// Whether the path has a bounce to trace.
    pub open spec fn tracing(self) -> bool {
        self.bounces != 0 && !self.missed && self.taken != self.bounces
    }

    /// The path of a pixel before its first bounce.
    pub fn begin(bounces: u32, base_seed: u32, pixel_index: u32) -> (walk: PathWalk)
        ensures
            walk == (PathWalk { bounces, taken: 0, missed: false, base_seed, pixel_index }),
            walk.well_formed(),
    {
        PathWalk { bounces, taken: 0, missed: false, base_seed, pixel_index }
    }

    /// What the kernel has to do next.
    pub fn next_step(&self) -> (step: PathStep)
        ensures
            step == self.step_spec(),
    {
        if self.bounces == 0 {
            PathStep::Sky
        } else if self.missed || self.taken == self.bounces {
            PathStep::Average { divisor: self.taken }
        } else {
            PathStep::Trace {
                bounce: self.taken,
                seed: derive_seed(self.base_seed, self.pixel_index, self.taken),
            }
        }
    }

    /// Records that the bounce just traced hit a sphere.
    pub fn on_hit(&mut self)
        requires
            old(self).well_formed(),
            old(self).tracing(),
        ensures
            *final(self) == (PathWalk { taken: (old(self).taken + 1) as u32, ..*old(self) }),
            final(self).well_formed(),
    {
        self.taken += 1;
    }

    /// Records that the bounce just traced hit nothing, which ends the path.
    pub fn on_miss(&mut self)
        requires
            old(self).well_formed(),
            old(self).tracing(),
        ensures
            *final(self) == (PathWalk {
                taken: (old(self).taken + 1) as u32,
                missed: true,
                ..*old(self)
            }),
            final(self).well_formed(),
    {
        self.taken += 1;
        self.missed = true;
    }
}

/// A path that is averaged has taken at least one bounce and at most the
/// allowed number: the divisor is never zero.
pub proof fn lemma_divisor_positive(walk: PathWalk)
    requires
        walk.well_formed(),
    ensures
        match walk.step_spec() {
            PathStep::Average { divisor } => 1 <= divisor <= walk.bounces,
            PathStep::Trace { bounce, seed } => bounce < walk.bounces && walk.tracing(),
            PathStep::Sky => walk.bounces == 0,
        },
{
}

} // verus!
