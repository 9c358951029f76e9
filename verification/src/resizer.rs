//! Resizing a raster: the target is computed exactly, the pixels are
//! resampled by the codec.

use vstd::prelude::*;
use crate::config::ResizeAlgorithm;
use crate::error::{Failure, ImageToolError};
use crate::geometry::{
    compute_target_dimensions, lemma_same_size_is_identity, lemma_unit_scale_is_identity,
    resize_possible, resize_rejection, target_dimensions, ResizeMode,
};
use crate::scale::ScaleFactor;
use crate::loader::raster_result_is;
use crate::raster::{resample_image, resampled, Raster};

verus! {

/// Resizes rasters with one filter and one policy on proportions.
#[derive(Clone, Copy, Debug)]
pub struct ImageResizer {
    /// The resampling filter.
    pub algorithm: ResizeAlgorithm,
    /// Whether the proportions of the source are kept.
    pub keep_aspect: bool,
}

/// Whether the buffers needed to bring a source of width `src_w` to `width`
/// by `height` fit in memory that this machine can address.
pub open spec fn fits_in_memory(src_w: u32, width: u32, height: u32) -> bool {
    src_w * height * 16 <= isize::MAX && width * height * 16 <= isize::MAX
}

/// The message that refuses a target too large for this machine.
pub open spec fn too_large_rejection() -> Seq<char> {
    "Resize target is too large for this machine"@
}

impl ImageResizer {
    /// A resizer with the given filter and policy.
    pub fn new(algorithm: ResizeAlgorithm, keep_aspect: bool) -> (resizer: ImageResizer)
        ensures
            resizer.algorithm == algorithm,
            resizer.keep_aspect == keep_aspect,
    {
        ImageResizer { algorithm, keep_aspect }
    }

    /// What [`ImageResizer::resize`] gives.
    ///
    /// - A target that is not possible is refused as `InvalidParameter`.
    /// - A target equal to the source's dimensions gives the source back,
    ///   pixel for pixel.
    /// - A target that does not fit in memory is refused as `InvalidParameter`.
    /// - Otherwise the result is the source resampled to the target.
    pub open spec fn resize_outcome(
        &self,
        raster: Raster,
        mode: ResizeMode,
    ) -> Result<Raster, Failure> {
        let t = target_dimensions(raster.width(), raster.height(), mode, self.keep_aspect);
        if !resize_possible(raster.width(), raster.height(), mode, self.keep_aspect) {
            Err(Failure::invalid(resize_rejection()))
        } else if t == (raster.width() as int, raster.height() as int) {
            Ok(raster)
        } else if !fits_in_memory(raster.width(), t.0 as u32, t.1 as u32) {
            Err(Failure::invalid(too_large_rejection()))
        } else {
            Ok(resampled(raster, t.0 as u32, t.1 as u32, self.algorithm))
        }
    }

    /// Brings a raster to the dimensions that `mode` asks for.
    pub fn resize(&self, raster: &Raster, mode: ResizeMode) -> (r: Result<Raster, ImageToolError>)
        requires
            raster.wf(),
        ensures
            raster_result_is(r, self.resize_outcome(*raster, mode)),
            r is Ok ==> r->Ok_0.wf() && (r->Ok_0.width() as int, r->Ok_0.height() as int)
                == target_dimensions(raster.width(), raster.height(), mode, self.keep_aspect),
    {
        let (width, height) = compute_target_dimensions(
            raster.width(),
            raster.height(),
            mode,
            self.keep_aspect,
        )?;
        if width == raster.width() && height == raster.height() {
            return Ok(raster.duplicate());
        }
        if !fits(raster.width(), width, height) {
            return Err(
                ImageToolError::invalid_parameter("Resize target is too large for this machine"),
            );
        }
        Ok(resample_image(raster, width, height, self.algorithm))
    }
}

/// Identity: a raster that has pixels, resized to its own width and height
/// or by a factor equal to one, comes back as it is, whatever the filter and
/// the policy on proportions.
pub proof fn lemma_resize_identity(resizer: ImageResizer, raster: Raster, factor: ScaleFactor)
    requires
        raster.width() > 0,
        raster.height() > 0,
        factor.wf(),
        factor.numerator() == factor.denominator(),
    ensures
        resizer.resize_outcome(raster, ResizeMode::Absolute(raster.width(), raster.height()))
            == Ok::<Raster, Failure>(raster),
        resizer.resize_outcome(raster, ResizeMode::Scale(factor)) == Ok::<Raster, Failure>(raster),
{
    lemma_same_size_is_identity(raster.width(), raster.height(), resizer.keep_aspect);
    lemma_unit_scale_is_identity(raster.width(), raster.height(), factor, resizer.keep_aspect);
}

/// Computes [`fits_in_memory`].
fn fits(src_w: u32, width: u32, height: u32) -> (ok: bool)
    ensures
        ok == fits_in_memory(src_w, width, height),
{
    let limit: u128 = isize::MAX as u128;
    assert(src_w * height * 16 <= 0xFFFF_FFFF * 0xFFFF_FFFF * 16) by (nonlinear_arith)
        requires
            0 <= src_w <= 0xFFFF_FFFF,
            0 <= height <= 0xFFFF_FFFF,
    ;
    assert(width * height * 16 <= 0xFFFF_FFFF * 0xFFFF_FFFF * 16) by (nonlinear_arith)
        requires
            0 <= width <= 0xFFFF_FFFF,
            0 <= height <= 0xFFFF_FFFF,
    ;
    assert(src_w * height >= 0 && width * height >= 0) by (nonlinear_arith)
        requires
            src_w >= 0,
            width >= 0,
            height >= 0,
    ;
    (src_w as u128) * (height as u128) * 16 <= limit && (width as u128) * (height as u128) * 16
        <= limit
}

} // verus!
