//! Network input: one picture of 224 by 224 pixels, colour planes first.

use crate::array::{array_cell, array_from_raster, within, ArrayView, CellIndex, SampleArray};
use crate::raster::{Raster, RasterView};
use crate::resample::{resample_footprint, resize_catmull_rom};
use vstd::prelude::*;

verus! {

/// Pictures in one network input.
pub const BATCH: usize = 1;

/// Rows and columns of the network input.
pub const SIDE: usize = 224;

/// Colour planes of the network input: red, green, blue.
pub const CHANNELS: usize = 3;

/// The sample that stands for 1.0. A sample `s` stands for `s / SAMPLE_MAX`.
pub const SAMPLE_MAX: u8 = 255;

/// The extents of a network input.
pub open spec fn network_dim() -> Seq<nat> {
    seq![BATCH as nat, CHANNELS as nat, SIDE as nat, SIDE as nat]
}

/// The array has the shape the network takes: `BATCH` pictures, each of
/// `CHANNELS` planes of `SIDE` by `SIDE` samples.
pub open spec fn is_network_input(a: ArrayView) -> bool {
    &&& a.well_formed()
    &&& a.dim == network_dim()
}

/// `c`, `y` and `x` name a plane, a row and a column of a network input.
pub open spec fn is_cell(c: int, y: int, x: int) -> bool {
    0 <= c < CHANNELS && 0 <= y < SIDE && 0 <= x < SIDE
}

/// The network input made of a picture: sample `c` of the pixel in column
/// `x`, row `y` becomes the element in plane `c`, row `y`, column `x`. Alpha,
/// the fourth sample, is left out.
pub open spec fn network_input(v: RasterView) -> ArrayView {
    ArrayView {
        dim: network_dim(),
        cells: Map::new(
            |i: CellIndex| within(network_dim(), i),
            |i: CellIndex| v.sample(i.col, i.row, i.plane),
        ),
    }
}

/// The picture can be resampled to the network's input size: the working
/// buffers fit this machine. With 64-bit addresses every picture can.
pub open spec fn preparable(v: RasterView) -> bool {
    resample_footprint(v.width, SIDE as nat, SIDE as nat) <= isize::MAX
}

/// A network input: an array of shape `[BATCH, CHANNELS, SIDE, SIDE]` whose
/// elements are 8-bit samples; see [`SAMPLE_MAX`] for the number each stands
/// for.
pub struct Tensor {
    array: SampleArray,
}

impl View for Tensor {
    type V = ArrayView;

    closed spec fn view(&self) -> ArrayView {
        self.array@
    }
}

impl Tensor {
    #[verifier::type_invariant]
    spec fn inv(&self) -> bool {
        is_network_input(self.array@)
    }

    /// Extent of each axis: batch, plane, row, column.
    pub fn shape() -> (s: (usize, usize, usize, usize))
        ensures
            s == (BATCH, CHANNELS, SIDE, SIDE),
            network_dim() == seq![s.0 as nat, s.1 as nat, s.2 as nat, s.3 as nat],
    {
        (BATCH, CHANNELS, SIDE, SIDE)
    }

    /// Lays out a picture of exactly `SIDE` by `SIDE` pixels as network input.
    pub fn from_raster(img: &Raster) -> (t: Tensor)
        requires
            img@.width == SIDE,
            img@.height == SIDE,
        ensures
            is_network_input(t@),
            t@.cells == network_input(img@).cells,
            forall|c: int, y: int, x: int| #[trigger]
                is_cell(c, y, x) ==> t@.cell(c, y, x) == img@.sample(x, y, c),
    {
        proof {
            use_type_invariant(img);
        }
        assert(BATCH * CHANNELS * SIDE * SIDE == 150528) by (nonlinear_arith)
            requires
                BATCH == 1,
                CHANNELS == 3,
                SIDE == 224,
        ;
        let array = array_from_raster(img, BATCH, CHANNELS, SIDE, SIDE);
        proof {
            let want = network_input(img@);
            assert forall|i: CellIndex| array@.cells.dom().contains(i) == want.cells.dom().contains(
                i,
            ) by {
                assert(within(array@.dim, i) == within(want.dim, i));
            }
            assert(array@.cells =~= want.cells);
            assert forall|c: int, y: int, x: int| #[trigger] is_cell(c, y, x) implies array@.cell(
                c,
                y,
                x,
            ) == img@.sample(x, y, c) by {
                assert(within(array@.dim, CellIndex { batch: 0, plane: c, row: y, col: x }));
            }
        }
        Tensor { array }
    }

    /// The sample in column `x` of row `y` of plane `c`.
    pub fn at(&self, c: usize, y: usize, x: usize) -> (s: u8)
        requires
            is_cell(c as int, y as int, x as int),
        ensures
            s == self@.cell(c as int, y as int, x as int),
    {
        proof {
            use_type_invariant(self);
        }
        array_cell(&self.array, 0, c, y, x)
    }
}

/// Resamples a picture to `SIDE` by `SIDE` pixels with the Catmull-Rom filter
/// and lays the result out as network input.
///
/// What the filter computes is not fixed here. A picture that already has the
/// network's size passes through resampling unchanged, so its tensor is
/// known exactly.
pub fn prepare_image(img: &Raster) -> (t: Tensor)
    requires
        preparable(img@),
    ensures
        is_network_input(t@),
        img@.width == SIDE && img@.height == SIDE ==> t@.cells == network_input(img@).cells,
{
    proof {
        use_type_invariant(img);
    }
    let resized = resize_catmull_rom(img, SIDE as u32, SIDE as u32);
    let t = Tensor::from_raster(&resized);
    proof {
        if img@.width == SIDE && img@.height == SIDE {
            assert(resized@ == img@);
        }
    }
    t
}

/// Tells whether [`prepare_image`] accepts the picture.
pub fn can_prepare(img: &Raster) -> (b: bool)
    ensures
        b == preparable(img@),
{
    let w: u128 = img.width() as u128;
    let side: u128 = SIDE as u128;
    let limit: u128 = isize::MAX as u128;
    assert(16 * img@.width * SIDE == 16 * w * side) by (nonlinear_arith)
        requires
            w == img@.width,
            side == SIDE,
    ;
    assert(4 * (SIDE as nat) * (SIDE as nat) == 4 * side * side) by (nonlinear_arith)
        requires
            side == SIDE,
    ;
    assert(16 * w * side == 3584 * w && 4 * side * side == 200704) by (nonlinear_arith)
        requires
            side == 224,
    ;
    3584 * w <= limit && 200704 <= limit
}

} // verus!
