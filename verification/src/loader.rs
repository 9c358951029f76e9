//! Decoding a byte source into a raster.

use vstd::prelude::*;
use crate::error::{Failure, ImageToolError};
use crate::raster::{decode_image, decoded, describe_image_error, image_error_text, Raster};
use crate::text::concat;

verus! {

/// Decodes rasters. It holds no state.
#[derive(Clone, Copy, Debug)]
pub struct ImageLoader;

/// What decoding the bytes gives: the raster that the codec decodes, or a
/// failure of class `Image` whose message is `context` followed by the
/// codec's own words.
pub open spec fn decode_outcome(data: Seq<u8>, context: Seq<char>) -> Result<Raster, Failure> {
    match decoded(data) {
        Ok(raster) => Ok(raster),
        Err(e) => Err(Failure::image(context + image_error_text(e))),
    }
}

/// What loading a source gives. A source that does not exist (no contents) is
/// refused as `InvalidParameter`; one that exists is decoded.
pub open spec fn load_outcome(
    path: Seq<char>,
    contents: Option<Seq<u8>>,
) -> Result<Raster, Failure> {
    match contents {
        None => Err(Failure::invalid("File does not exist: "@ + path)),
        Some(data) => decode_outcome(data, "Failed to decode image: "@),
    }
}

/// Whether a result is the outcome that a contract describes.
pub open spec fn raster_result_is(
    r: Result<Raster, ImageToolError>,
    outcome: Result<Raster, Failure>,
) -> bool {
    match outcome {
        Ok(raster) => r is Ok && r->Ok_0 == raster,
        Err(failure) => r is Err && r->Err_0.reports(failure),
    }
}

/// Decodes `data`, reporting a codec error under `context`.
pub fn decode_with_context(data: &[u8], context: &str) -> (r: Result<Raster, ImageToolError>)
    ensures
        raster_result_is(r, decode_outcome(data@, context@)),
        r is Ok ==> r->Ok_0.wf(),
{
    match decode_image(data) {
        Ok(raster) => Ok(raster),
        Err(e) => {
            let words = describe_image_error(&e);
            Err(ImageToolError::Image(concat(context, words.as_str())))
        },
    }
}

impl ImageLoader {
    /// A loader.
    pub fn new() -> (loader: ImageLoader) {
        ImageLoader
    }

    /// Decodes the contents of the file at `path`, as the caller read them;
    /// `None` stands for a file that does not exist. A failure to decode is
    /// final: nothing is tried again.
    pub fn load(&self, path: &str, contents: Option<&[u8]>) -> (r: Result<Raster, ImageToolError>)
        ensures
            raster_result_is(
                r,
                load_outcome(
                    path@,
                    match contents {
                        Some(data) => Some(data@),
                        None => None,
                    },
                ),
            ),
            r is Ok ==> r->Ok_0.wf(),
    {
        match contents {
            None => {
                let words = concat("File does not exist: ", path);
                Err(ImageToolError::InvalidParameter(words))
            },
            Some(data) => decode_with_context(data, "Failed to decode image: "),
        }
    }

    /// Decodes an image held in memory.
    pub fn load_from_bytes(&self, data: &[u8]) -> (r: Result<Raster, ImageToolError>)
        ensures
            raster_result_is(r, decode_outcome(data@, "Failed to decode image from bytes: "@)),
            r is Ok ==> r->Ok_0.wf(),
    {
        decode_with_context(data, "Failed to decode image from bytes: ")
    }
}

} // verus!
