//! Four-dimensional arrays of 8-bit samples, kept by the `ndarray` crate.

use crate::raster::{Raster, SAMPLES_PER_PIXEL};
use ndarray::Array4;
use vstd::prelude::*;

verus! {

/// Names one element of a four-dimensional array.
pub struct CellIndex {
    pub batch: int,
    pub plane: int,
    pub row: int,
    pub col: int,
}

/// The index lies within the extent of every axis.
pub open spec fn within(dim: Seq<nat>, i: CellIndex) -> bool {
    &&& 0 <= i.batch < dim[0]
    &&& 0 <= i.plane < dim[1]
    &&& 0 <= i.row < dim[2]
    &&& 0 <= i.col < dim[3]
}

/// Mathematical content of an array of samples: the extent of its four axes
/// (batch, plane, row, column) and the sample at each index.
pub struct ArrayView {
    pub dim: Seq<nat>,
    pub cells: Map<CellIndex, u8>,
}

impl ArrayView {
    /// There are four axes, and a sample exactly at the indices within them.
    pub open spec fn well_formed(self) -> bool {
        &&& self.dim.len() == 4
        &&& forall|i: CellIndex| self.cells.dom().contains(i) <==> #[trigger] within(self.dim, i)
    }

    /// The sample in column `x` of row `y` of plane `c` of the first picture.
    pub open spec fn cell(self, c: int, y: int, x: int) -> u8 {
        self.cells[CellIndex { batch: 0, plane: c, row: y, col: x }]
    }
}

/// A four-dimensional `ndarray` array of 8-bit samples.
///
/// Trusted: `ndarray`'s array type takes its storage through a trait of that
/// crate, which keeps it out of verified signatures, so the array is held
/// here unseen. What it holds is known only through [`array_dim`] and
/// [`array_cells`].
#[verifier::external_body]
pub struct SampleArray {
    cells: Array4<u8>,
}

/// The extent of each axis of the array, as `ArrayBase::dim` reports it.
pub uninterp spec fn array_dim(a: SampleArray) -> Seq<nat>;

/// The element of the array at each index, as indexing reports it.
pub uninterp spec fn array_cells(a: SampleArray) -> Map<CellIndex, u8>;

impl View for SampleArray {
    type V = ArrayView;

    open spec fn view(&self) -> ArrayView {
        ArrayView { dim: array_dim(*self), cells: array_cells(*self) }
    }
}

/// Calls `ndarray::Array4::from_shape_fn` with the shape
/// `(batch, planes, rows, cols)` and a function that, for the index
/// `(_, c, y, x)`, looks up sample `c` of the pixel in column `x`, row `y` of
/// `img`.
///
/// Trusted. As the constructor's documentation says, the array has the given
/// shape and holds at every index what the function returns for it. Left out
/// are the shapes on which it panics (an element count beyond `isize`) and
/// those that reach outside the picture.
#[verifier::external_body]
pub(crate) fn array_from_raster(
    img: &Raster,
    batch: usize,
    planes: usize,
    rows: usize,
    cols: usize,
) -> (a: SampleArray)
    requires
        img@.well_formed(),
        0 < batch,
        0 < planes <= SAMPLES_PER_PIXEL,
        0 < rows <= img@.height,
        0 < cols <= img@.width,
        batch * planes * rows * cols <= isize::MAX,
    ensures
        array_dim(a) == seq![batch as nat, planes as nat, rows as nat, cols as nat],
        forall|i: CellIndex| array_cells(a).dom().contains(i) <==> #[trigger] within(array_dim(a), i),
        forall|i: CellIndex| #[trigger]
            within(array_dim(a), i) ==> array_cells(a)[i] == img@.sample(i.col, i.row, i.plane),
{
    SampleArray {
        cells: Array4::from_shape_fn(
            (batch, planes, rows, cols),
            |(_, c, y, x)| img.sample(x as u32, y as u32, c),
        ),
    }
}

/// Indexes the array (`Index::index` of `ndarray::ArrayBase`).
///
/// Trusted. Left out are the indices outside the array, on which indexing
/// panics.
#[verifier::external_body]
pub(crate) fn array_cell(a: &SampleArray, batch: usize, plane: usize, row: usize, col: usize) -> (s: u8)
    requires
        within(
            array_dim(*a),
            CellIndex { batch: batch as int, plane: plane as int, row: row as int, col: col as int },
        ),
    ensures
        s == array_cells(*a)[(CellIndex {
            batch: batch as int,
            plane: plane as int,
            row: row as int,
            col: col as int,
        })],
{
    a.cells[[batch, plane, row, col]]
}

} // verus!
