//! Progressive accumulation of frames and the sequence of one frame.
//!
//! The renderer owns the running sum of every pixel's samples and the count
//! of frames summed. What a sample is, how two samples combine and how a sum is
//! averaged is the caller's: the renderer decides which pixel is shaded with
//! which seed, which sample meets which sum, and when the sums start over.

use vstd::prelude::*;
use crate::image_util::ImageSize;
use crate::math::{pcg_hash, pcg_hash_spec};

verus! {

/// The mathematical content of a [`Renderer`].
pub struct RendererView<T> {
    /// The running sum of each pixel, row by row.
    pub sums: Seq<T>,
    /// The sample that stands for no light at all.
    pub zero: T,
    /// The size of the image.
    pub size: ImageSize,
    /// How many frames the sums hold.
    pub acc_frame: nat,
    /// The seed of the next frame.
    pub seed: u32,
}

impl<T> RendererView<T> {
    /// There is one sum per pixel.
    pub open spec fn well_formed(self) -> bool {
        self.sums.len() == self.size.pixel_count()
    }

    /// The state with nothing accumulated: every sum is the zero sample and
    /// no frame is counted.
    pub open spec fn cleared(zero: T, size: ImageSize, seed: u32) -> RendererView<T> {
        RendererView {
            sums: Seq::new(size.pixel_count(), |i: int| zero),
            zero,
            size,
            acc_frame: 0,
            seed,
        }
    }

    /// `frame` holds one sample per pixel, each one an outcome of `shade` for
    /// that pixel's column and row and the renderer's seed.
    pub open spec fn sampled<F: Fn(usize, usize, u32) -> T>(self, shade: F, frame: Seq<T>) -> bool {
        &&& frame.len() == self.size.pixel_count()
        &&& forall|i: int|
            0 <= i < frame.len() ==> call_ensures(
                shade,
                (self.size.coordinates()[i].1, self.size.coordinates()[i].0, self.seed),
                #[trigger] frame[i],
            )
    }

    /// `after` is `self` with `frame` added in: each new sum is an outcome of
    /// `combine` for the old sum and the sample of the same pixel, and one more
    /// frame is counted. Nothing else changes.
    pub open spec fn integrates_to<F: Fn(T, T) -> T>(
        self,
        frame: Seq<T>,
        combine: F,
        after: RendererView<T>,
    ) -> bool {
        &&& after.zero == self.zero
        &&& after.size == self.size
        &&& after.seed == self.seed
        &&& after.acc_frame == self.acc_frame + 1
        &&& after.sums.len() == self.sums.len()
        &&& forall|i: int|
            0 <= i < self.sums.len() ==> call_ensures(
                combine,
                (self.sums[i], frame[i]),
                #[trigger] after.sums[i],
            )
    }

    /// `image` holds, for each pixel, an outcome of `average` for the pixel's
    /// sum and the number of frames summed.
    pub open spec fn averages_to<P, F: Fn(T, usize) -> P>(self, average: F, image: Seq<P>) -> bool {
        &&& image.len() == self.sums.len()
        &&& forall|i: int|
            0 <= i < image.len() ==> call_ensures(
                average,
                (self.sums[i], self.acc_frame as usize),
                #[trigger] image[i],
            )
    }

    /// The state after a reset: the sums start over, the rest stays.
    pub open spec fn reset(self) -> RendererView<T> {
        RendererView { sums: Seq::new(self.sums.len(), |i: int| self.zero), acc_frame: 0, ..self }
    }

    /// The state that a frame is added to: the reset state where the scene
    /// or the camera changed since the last frame, else the state as it is.
    pub open spec fn before_frame(self, needs_reset: bool) -> RendererView<T> {
        if needs_reset {
            self.reset()
        } else {
            self
        }
    }

    /// The same state with another seed.
    pub open spec fn with_seed(self, seed: u32) -> RendererView<T> {
        RendererView { seed, ..self }
    }
}

/// Whether `combine` accepts every pair of samples.
pub open spec fn combines_all<T, F: Fn(T, T) -> T>(combine: F) -> bool {
    forall|sum: T, sample: T| call_requires(combine, (sum, sample))
}

/// Whether `average` accepts every sum with the frame count `frames`.
pub open spec fn averages_all<T, P, F: Fn(T, usize) -> P>(average: F, frames: usize) -> bool {
    forall|sum: T| call_requires(average, (sum, frames))
}

/// Whether `shade` accepts every pixel with the seed `seed`.
pub open spec fn shades_all<T, F: Fn(usize, usize, u32) -> T>(shade: F, seed: u32) -> bool {
    forall|x: usize, y: usize| call_requires(shade, (x, y, seed))
}

/// A vector of `count` copies of `value`.
fn filled<T: Copy>(count: usize, value: T) -> (buffer: Vec<T>)
    ensures
        buffer@ == Seq::new(count as nat, |i: int| value),
{
    let mut buffer: Vec<T> = Vec::new();
    let mut i: usize = 0;
    while i < count
        invariant
            i <= count,
            buffer@ == Seq::new(i as nat, |k: int| value),
        decreases count - i,
    {
        buffer.push(value);
        i += 1;
        assert(buffer@ =~= Seq::new(i as nat, |k: int| value));
    }
    buffer
}

/// The accumulation buffer of a progressive render and its frame counter.
pub struct Renderer<T> {
    sums: Vec<T>,
    zero: T,
    size: ImageSize,
    acc_frame: usize,
    seed: u32,
}

impl<T> View for Renderer<T> {
    type V = RendererView<T>;

    closed spec fn view(&self) -> RendererView<T> {
        RendererView {
            sums: self.sums@,
            zero: self.zero,
            size: self.size,
            acc_frame: self.acc_frame as nat,
            seed: self.seed,
        }
    }
}

impl<T: Copy> Renderer<T> {
    /// A renderer for an image of `size` with nothing accumulated.
    pub fn new(size: ImageSize, zero: T, seed: u32) -> (renderer: Renderer<T>)
        requires
            size.pixel_count() <= usize::MAX,
        ensures
            renderer@ == RendererView::cleared(zero, size, seed),
            renderer@.well_formed(),
    {
        let count: usize = size.len();
        Renderer { sums: filled(count, zero), zero, size, acc_frame: 0, seed }
    }

    /// The running sums, one per pixel, row by row.
    pub fn get_image(&self) -> (sums: &Vec<T>)
        ensures
            sums@ == self@.sums,
    {
        &self.sums
    }

    /// The size of the image.
    pub fn size(&self) -> (size: ImageSize)
        ensures
            size == self@.size,
    {
        self.size
    }

    /// The number of frames that the sums hold.
    pub fn acc_frame(&self) -> (frames: usize)
        ensures
            frames == self@.acc_frame,
    {
        self.acc_frame
    }

    /// The seed that the next frame is shaded with.
    pub fn seed(&self) -> (seed: u32)
        ensures
            seed == self@.seed,
    {
        self.seed
    }

    /// Replaces the seed of the next frame, where the caller draws it from a
    /// generator of its own.
    pub fn set_seed(&mut self, seed: u32)
        ensures
            final(self)@ == old(self)@.with_seed(seed),
    {
        self.seed = seed;
    }

    /// Takes a new image size: the buffer is made anew for it and nothing of
    /// the old sums is kept, whatever the renderer held before.
    pub fn resize(&mut self, new_size: ImageSize)
        requires
            new_size.pixel_count() <= usize::MAX,
        ensures
            final(self)@ == RendererView::cleared(old(self)@.zero, new_size, old(self)@.seed),
            final(self)@.well_formed(),
            final(self)@.sums.len() == new_size.width * new_size.height,
            final(self)@.acc_frame == 0,
    {
        let count: usize = new_size.len();
        self.acc_frame = 0;
        self.size = new_size;
        self.sums = filled(count, self.zero);
    }

    /// Starts the accumulation over: every sum is zero again and no frame is
    /// counted.
    pub fn reset_acc(&mut self)
        requires
            old(self)@.well_formed(),
        ensures
            final(self)@ == old(self)@.reset(),
            final(self)@.well_formed(),
    {
        self.acc_frame = 0;
        let count: usize = self.sums.len();
        let mut i: usize = 0;
        while i < count
            invariant
                i <= count,
                count == self.sums@.len(),
                self.zero == old(self).zero,
                self.size == old(self).size,
                self.seed == old(self).seed,
                self.acc_frame == 0,
                forall|k: int| 0 <= k < i ==> self.sums@[k] == self.zero,
            decreases count - i,
        {
            self.sums.set(i, self.zero);
            i += 1;
        }
        assert(self.sums@ =~= Seq::new(old(self).sums@.len(), |k: int| self.zero));
    }

    /// Adds one frame into the sums and counts it. `frame` holds one sample
    /// per pixel in the order of the sums.
    pub fn integrate<F: Fn(T, T) -> T>(&mut self, frame: &Vec<T>, combine: F)
        requires
            old(self)@.well_formed(),
            frame@.len() == old(self)@.sums.len(),
            old(self)@.acc_frame < usize::MAX,
            combines_all(combine),
        ensures
            old(self)@.integrates_to(frame@, combine, final(self)@),
            final(self)@.well_formed(),
    {
        let count: usize = self.sums.len();
        let mut i: usize = 0;
        while i < count
            invariant
                i <= count,
                count == self.sums@.len(),
                count == frame@.len(),
                count == old(self).sums@.len(),
                self.zero == old(self).zero,
                self.size == old(self).size,
                self.seed == old(self).seed,
                self.acc_frame == old(self).acc_frame,
                combines_all(combine),
                forall|k: int|
                    0 <= k < i ==> call_ensures(
                        combine,
                        (old(self).sums@[k], frame@[k]),
                        #[trigger] self.sums@[k],
                    ),
                forall|k: int| i <= k < count ==> self.sums@[k] == old(self).sums@[k],
            decreases count - i,
        {
            let sum: T = combine(self.sums[i], frame[i]);
            self.sums.set(i, sum);
            i += 1;
        }
        self.acc_frame += 1;
    }

    /// The image to show: every sum averaged over the frames counted. There
    /// must be a frame to average over.
    pub fn snapshot<P, F: Fn(T, usize) -> P>(&self, average: F) -> (image: Vec<P>)
        requires
            self@.acc_frame > 0,
            averages_all(average, self@.acc_frame as usize),
        ensures
            self@.averages_to(average, image@),
    {
        let count: usize = self.sums.len();
        let mut image: Vec<P> = Vec::new();
        let mut i: usize = 0;
        while i < count
            invariant
                i <= count,
                count == self.sums@.len(),
                image@.len() == i,
                averages_all(average, self.acc_frame),
                forall|k: int|
                    0 <= k < i ==> call_ensures(
                        average,
                        (self.sums@[k], self.acc_frame),
                        #[trigger] image@[k],
                    ),
            decreases count - i,
        {
            let pixel: P = average(self.sums[i], self.acc_frame);
            image.push(pixel);
            i += 1;
        }
        image
    }

    /// Shades every pixel once with the renderer's seed, in the order of the
    /// sums.
    pub fn sample_frame<F: Fn(usize, usize, u32) -> T>(&self, shade: F) -> (frame: Vec<T>)
        requires
            self@.size.enumerable(),
            shades_all(shade, self@.seed),
        ensures
            self@.sampled(shade, frame@),
    {
        let pixels: Vec<(usize, usize)> = self.size.into_iter();
        let count: usize = pixels.len();
        let mut frame: Vec<T> = Vec::new();
        let mut i: usize = 0;
        while i < count
            invariant
                i <= count,
                count == pixels@.len(),
                pixels@ == self.size.coordinates(),
                frame@.len() == i,
                shades_all(shade, self.seed),
                forall|k: int|
                    0 <= k < i ==> call_ensures(
                        shade,
                        (pixels@[k].1, pixels@[k].0, self.seed),
                        #[trigger] frame@[k],
                    ),
            decreases count - i,
        {
            let (y, x) = pixels[i];
            let sample: T = shade(x, y, self.seed);
            frame.push(sample);
            i += 1;
        }
        frame
    }

    /// One frame from end to end. Where a reset is due the accumulation
    /// starts over first. Then every pixel is shaded with the current seed,
    /// the samples are added into the sums, the averaged image is taken, and
    /// the seed moves on to its hash for the next frame.
    pub fn render<P, S: Fn(usize, usize, u32) -> T, A: Fn(T, T) -> T, D: Fn(T, usize) -> P>(
        &mut self,
        needs_reset: bool,
        shade: S,
        combine: A,
        average: D,
    ) -> (image: Vec<P>)
        requires
            old(self)@.well_formed(),
            old(self)@.size.enumerable(),
            old(self)@.before_frame(needs_reset).acc_frame < usize::MAX,
            shades_all(shade, old(self)@.seed),
            combines_all(combine),
            averages_all(average, (old(self)@.before_frame(needs_reset).acc_frame + 1) as usize),
        ensures
            final(self)@.well_formed(),
            final(self)@.seed == pcg_hash_spec(old(self)@.seed),
            exists|frame: Seq<T>|
                {
                    &&& #[trigger] old(self)@.sampled(shade, frame)
                    &&& old(self)@.before_frame(needs_reset).integrates_to(
                        frame,
                        combine,
                        final(self)@.with_seed(old(self)@.seed),
                    )
                },
            final(self)@.averages_to(average, image@),
    {
        if needs_reset {
            self.reset_acc();
        }
        let frame: Vec<T> = self.sample_frame(shade);
        self.integrate(&frame, combine);
        let image: Vec<P> = self.snapshot(average);
        self.seed = pcg_hash(self.seed);
        proof {
            assert(old(self)@.sampled(shade, frame@));
            assert(final(self)@.with_seed(old(self)@.seed) == RendererView {
                seed: old(self)@.seed,
                ..self@
            });
        }
        image
    }
}

/// Whether `combine` gives one result for each sum and sample.
pub open spec fn combines_one<T, F: Fn(T, T) -> T>(combine: F) -> bool {
    forall|input: (T, T), first: T, second: T|
        call_ensures(combine, input, first) && call_ensures(combine, input, second) ==> first
            == second
}

/// Whether `average` gives one result for each sum and frame count.
pub open spec fn averages_one<T, P, F: Fn(T, usize) -> P>(average: F) -> bool {
    forall|input: (T, usize), first: P, second: P|
        call_ensures(average, input, first) && call_ensures(average, input, second) ==> first
            == second
}

/// A reset leaves no residue. Take a renderer in any state, reset it, and add
/// one frame; take a new renderer of the same size and add the same frame.
/// The two hold the same sums, and their images are the same.
pub proof fn lemma_reset_leaves_no_residue<T, P, A: Fn(T, T) -> T, D: Fn(T, usize) -> P>(
    used: RendererView<T>,
    frame: Seq<T>,
    combine: A,
    average: D,
    after_reset: RendererView<T>,
    after_new: RendererView<T>,
    image_reset: Seq<P>,
    image_new: Seq<P>,
)
    requires
        used.well_formed(),
        combines_one(combine),
        averages_one(average),
        used.reset().integrates_to(frame, combine, after_reset),
        RendererView::cleared(used.zero, used.size, used.seed).integrates_to(
            frame,
            combine,
            after_new,
        ),
        after_reset.averages_to(average, image_reset),
        after_new.averages_to(average, image_new),
    ensures
        after_reset == after_new,
        image_reset == image_new,
{
    assert(after_reset.sums =~= after_new.sums);
    assert(image_reset =~= image_new);
}

} // verus!
