//! Resampling of pictures, done by the `image` crate.

use crate::raster::Raster;
use image::imageops::FilterType;
use image::{ImageBuffer, Rgba};
use vstd::prelude::*;

verus! {

/// Bytes that resampling a picture `source_width` columns wide to
/// `width` by `height` pixels keeps in one buffer at most: first one
/// single-precision RGBA pixel for each source column and target row, then
/// the target picture itself.
pub open spec fn resample_footprint(source_width: nat, width: nat, height: nat) -> nat {
    if 16 * source_width * height >= 4 * width * height {
        16 * source_width * height
    } else {
        4 * width * height
    }
}

/// Calls `image::imageops::resize` with the Catmull-Rom filter on the pixels
/// of `img`.
///
/// Trusted. The filter is evaluated in single-precision floating point, whose
/// rounding in `powi` the standard library leaves to the platform, so nothing
/// is claimed of the resampled values. Claimed is what the function's source
/// shows for every outcome: the result has exactly the requested size, and a
/// picture that already has that size is copied pixel by pixel.
///
/// Left out are the sizes on which the call panics: those whose buffers are
/// larger than a `Vec` can be.
#[verifier::external_body]
pub(crate) fn resize_catmull_rom(img: &Raster, width: u32, height: u32) -> (out: Raster)
    requires
        img@.well_formed(),
        resample_footprint(img@.width, width as nat, height as nat) <= isize::MAX,
    ensures
        out@.well_formed(),
        out@.width == width,
        out@.height == height,
        img@.width == width && img@.height == height ==> out@.samples == img@.samples,
{
    let source: ImageBuffer<Rgba<u8>, &[u8]> =
        ImageBuffer::from_raw(img.width, img.height, img.samples.as_slice()).unwrap();
    let resized = image::imageops::resize(&source, width, height, FilterType::CatmullRom);
    Raster { width, height, samples: resized.into_raw() }
}

} // verus!
