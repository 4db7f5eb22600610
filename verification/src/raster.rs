//! Decoded pictures as rows of interleaved 8-bit RGBA samples.

use vstd::prelude::*;

verus! {

/// Samples stored per pixel: red, green, blue, alpha.
pub const SAMPLES_PER_PIXEL: usize = 4;

/// Mathematical content of a [`Raster`].
pub struct RasterView {
    pub width: nat,
    pub height: nat,
    pub samples: Seq<u8>,
}

impl RasterView {
    /// Every pixel of every row has its four samples, and nothing follows them.
    pub open spec fn well_formed(self) -> bool {
        self.samples.len() == SAMPLES_PER_PIXEL * self.width * self.height
    }

    /// `x` is a column, `y` a row and `c` a sample of one pixel.
    pub open spec fn in_bounds(self, x: int, y: int, c: int) -> bool {
        0 <= x < self.width && 0 <= y < self.height && 0 <= c < SAMPLES_PER_PIXEL
    }

    /// Position of sample `c` of the pixel in column `x`, row `y`.
    pub open spec fn offset(self, x: int, y: int, c: int) -> int {
        (y * self.width + x) * SAMPLES_PER_PIXEL + c
    }

    /// Sample `c` of the pixel in column `x`, row `y`.
    pub open spec fn sample(self, x: int, y: int, c: int) -> u8 {
        self.samples[self.offset(x, y, c)]
    }
}

/// The offset of every sample of a well-formed picture lies within its
/// sample sequence.
pub proof fn lemma_offset_in_range(v: RasterView, x: int, y: int, c: int)
    requires
        v.well_formed(),
        v.in_bounds(x, y, c),
    ensures
        0 <= v.offset(x, y, c) < v.samples.len(),
{
    let w = v.width as int;
    let h = v.height as int;
    assert(y * w + x <= (h - 1) * w + (w - 1)) by (nonlinear_arith)
        requires
            0 <= x < w,
            0 <= y < h,
    ;
    assert(0 <= y * w + x) by (nonlinear_arith)
        requires
            0 <= x < w,
            0 <= y < h,
    ;
    assert((h - 1) * w + (w - 1) == h * w - 1) by (nonlinear_arith);
    assert(4 * w * h == 4 * (h * w)) by (nonlinear_arith);
}

/// An RGBA picture with 8 bits per sample, rows top to bottom, pixels left to
/// right within a row.
#[derive(Debug)]
pub struct Raster {
    pub(crate) width: u32,
    pub(crate) height: u32,
    pub(crate) samples: Vec<u8>,
}

impl View for Raster {
    type V = RasterView;

    closed spec fn view(&self) -> RasterView {
        RasterView {
            width: self.width as nat,
            height: self.height as nat,
            samples: self.samples@,
        }
    }
}

impl Clone for Raster {
    fn clone(&self) -> (copy: Raster)
        ensures
            copy@ == self@,
    {
        proof {
            use_type_invariant(self);
        }
        Raster { width: self.width, height: self.height, samples: self.samples.clone() }
    }
}

impl Raster {
    #[verifier::type_invariant]
    pub(crate) open spec fn inv(&self) -> bool {
        self@.well_formed()
    }

    /// Takes ownership of `samples` as a picture of the given size. The
    /// buffer is accepted exactly when it holds four samples for each of the
    /// `width * height` pixels.
    pub fn new(width: u32, height: u32, samples: Vec<u8>) -> (r: Option<Raster>)
        ensures
            r is Some <==> samples@.len() == SAMPLES_PER_PIXEL * width * height,
            r matches Some(img) ==> img@ == (RasterView {
                width: width as nat,
                height: height as nat,
                samples: samples@,
            }),
    {
        assert(0 <= width * height <= 0xffff_ffff * 0xffff_ffff) by (nonlinear_arith)
            requires
                0 <= width <= 0xffff_ffff,
                0 <= height <= 0xffff_ffff,
        ;
        let pixels: u128 = (width as u128) * (height as u128);
        let needed: u128 = 4 * pixels;
        assert(needed == SAMPLES_PER_PIXEL * width * height) by (nonlinear_arith)
            requires
                needed == 4 * pixels,
                pixels == width * height,
                SAMPLES_PER_PIXEL == 4,
        ;
        if samples.len() as u128 == needed {
            Some(Raster { width, height, samples })
        } else {
            None
        }
    }

    /// Number of columns.
    pub fn width(&self) -> (w: u32)
        ensures
            w == self@.width,
            self@.well_formed(),
    {
        proof {
            use_type_invariant(self);
        }
        self.width
    }

    /// Number of rows.
    pub fn height(&self) -> (h: u32)
        ensures
            h == self@.height,
            self@.well_formed(),
    {
        proof {
            use_type_invariant(self);
        }
        self.height
    }

    /// The samples in storage order.
    pub fn samples(&self) -> (s: &Vec<u8>)
        ensures
            s@ == self@.samples,
            self@.well_formed(),
    {
        proof {
            use_type_invariant(self);
        }
        &self.samples
    }

    /// Sample `c` of the pixel in column `x`, row `y`.
    pub fn sample(&self, x: u32, y: u32, c: usize) -> (s: u8)
        requires
            self@.in_bounds(x as int, y as int, c as int),
        ensures
            s == self@.sample(x as int, y as int, c as int),
    {
        proof {
            use_type_invariant(self);
            lemma_offset_in_range(self@, x as int, y as int, c as int);
        }
        let row: usize = y as usize;
        let col: usize = x as usize;
        let w: usize = self.width as usize;
        assert(0 <= row * w) by (nonlinear_arith)
            requires
                0 <= row,
                0 <= w,
        ;
        assert(row * w == y * self@.width) by (nonlinear_arith)
            requires
                row == y,
                w == self@.width,
        ;
        assert(self@.offset(x as int, y as int, c as int) == (row * w + col) * 4 + c);
        assert(self@.samples.len() == self.samples.len());
        self.samples[(row * w + col) * SAMPLES_PER_PIXEL + c]
    }
}

} // verus!
