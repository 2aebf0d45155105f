//! The pixel grid of an image and the order in which it is walked.

use itertools::Itertools;
use vstd::prelude::*;

verus! {

/// Width and height of an image, in pixels.
#[derive(Clone, Copy, Debug, PartialEq, Eq)]
pub struct ImageSize {
    pub width: u32,
    pub height: u32,
}

/// Builds every pair of a row and a column with
/// `itertools::Itertools::cartesian_product` on the ranges `0..rows` and
/// `0..columns`, collected in the order the adaptor yields them. Believed of
/// it: the pairs come row by row, and inside a row by rising column, so the
/// pair at place `i` is row `i / columns`, column `i % columns`. The bound
/// keeps the collected vector, at twice its length in pairs of two words,
/// within what one allocation may hold.
#[verifier::external_body]
fn cartesian_indices(rows: usize, columns: usize) -> (pairs: Vec<(usize, usize)>)
    requires
        rows * columns * 32 <= isize::MAX,
    ensures
        pairs@.len() == rows * columns,
        forall|i: int|
            0 <= i < pairs@.len() ==> #[trigger] pairs@[i] == (
                (i / columns as int) as usize,
                (i % columns as int) as usize,
            ),
{
    (0..rows).cartesian_product(0..columns).collect()
}

impl ImageSize {
    pub fn new(width: u32, height: u32) -> (size: ImageSize)
        ensures
            size.width == width,
            size.height == height,
    {
        ImageSize { width, height }
    }

    /// How many pixels the image has.
    pub open spec fn pixel_count(self) -> nat {
        (self.width * self.height) as nat
    }

    /// The pixels as `(row, column)` pairs, row by row from the top.
    pub open spec fn coordinates(self) -> Seq<(usize, usize)> {
        Seq::new(
            self.pixel_count(),
            |i: int| ((i / self.width as int) as usize, (i % self.width as int) as usize),
        )
    }

    /// Whether the list of all pixel coordinates fits in one allocation.
    pub open spec fn enumerable(self) -> bool {
        self.width * self.height * 32 <= isize::MAX
    }

    /// The place of the pixel in column `x` of row `y` in a buffer that stores
    /// the image row by row.
    pub open spec fn index_of_spec(self, x: u32, y: u32) -> int {
        x + y * self.width
    }

    /// Every pixel of the image as a `(row, column)` pair, in the order of a
    /// row-major buffer.
    pub fn into_iter(self) -> (pixels: Vec<(usize, usize)>)
        requires
            self.enumerable(),
        ensures
            pixels@ == self.coordinates(),
    {
        let pixels = cartesian_indices(self.height as usize, self.width as usize);
        proof {
            assert(self.height * self.width == self.width * self.height) by (nonlinear_arith);
            assert(pixels@ =~= self.coordinates());
        }
        pixels
    }

    /// The number of pixels, where it fits the machine's index type.
    pub fn len(&self) -> (count: usize)
        requires
            self.pixel_count() <= usize::MAX,
        ensures
            count == self.pixel_count(),
    {
        (self.width as usize) * (self.height as usize)
    }

    /// The index of pixel `(x, y)` in a row-major buffer of this size.
    pub fn index_of(&self, x: u32, y: u32) -> (index: usize)
        requires
            x < self.width,
            y < self.height,
            self.pixel_count() <= usize::MAX,
        ensures
            index == self.index_of_spec(x, y),
            index < self.pixel_count(),
    {
        proof {
            lemma_index_in_grid(*self, x, y);
        }
        assert(y * self.width <= self.pixel_count()) by (nonlinear_arith)
            requires
                y < self.height,
                self.pixel_count() == self.width * self.height,
        ;
        (x as usize) + (y as usize) * (self.width as usize)
    }
}

/// The row-major index and the coordinate list agree: the pixel `(x, y)`
/// stands in the list at its own index, as `(y, x)`.
pub proof fn lemma_index_in_grid(size: ImageSize, x: u32, y: u32)
    requires
        x < size.width,
        y < size.height,
    ensures
        0 <= size.index_of_spec(x, y) < size.pixel_count(),
        size.coordinates()[size.index_of_spec(x, y)] == (y as usize, x as usize),
{
    let w = size.width as int;
    let i = size.index_of_spec(x, y);
    assert(y * w + w <= size.height * w) by (nonlinear_arith)
        requires
            y < size.height,
            w >= 0,
    ;
    assert(size.height * w == size.width * size.height) by (nonlinear_arith)
        requires
            w == size.width,
    ;
    vstd::arithmetic::div_mod::lemma_fundamental_div_mod_converse(i, w, y as int, x as int);
}

} // verus!
