//! Encoding a raster into the bytes of a file, and measuring what was saved.

use vstd::prelude::*;
use crate::config::{EncodeFlags, OutputFormat, MAX_QUALITY, MIN_QUALITY};
use crate::error::{Failure, ImageToolError};
use crate::loader::{decode_outcome, decode_with_context};
use crate::paths::extension_of;
use crate::raster::{
    describe_image_error, encode_image, encode_jpeg, encode_png, encoded, image_error_text,
    jpeg_encoded, png_encoded, ContainerFormat, PngCompression, Raster,
};
use crate::text::{lower, same_text};
use crate::utils::folded_extension;

verus! {

/// Encodes rasters at one quality.
#[derive(Clone, Copy, Debug)]
pub struct ImageCompressor {
    quality: u8,
}

/// A quality brought into the range from 1 to 100.
pub open spec fn clamped_quality(quality: u8) -> u8 {
    if quality < MIN_QUALITY {
        MIN_QUALITY
    } else if quality > MAX_QUALITY {
        MAX_QUALITY
    } else {
        quality
    }
}

/// The container that a lower-case extension names; JPEG for any other.
pub open spec fn format_of_extension(ext: Seq<char>) -> ContainerFormat {
    if ext == "jpg"@ || ext == "jpeg"@ {
        ContainerFormat::Jpeg
    } else if ext == "png"@ {
        ContainerFormat::Png
    } else if ext == "gif"@ {
        ContainerFormat::Gif
    } else if ext == "bmp"@ {
        ContainerFormat::Bmp
    } else if ext == "webp"@ {
        ContainerFormat::WebP
    } else if ext == "tiff"@ || ext == "tif"@ {
        ContainerFormat::Tiff
    } else {
        ContainerFormat::Jpeg
    }
}

/// The container that a path's extension names, in any letter case; JPEG
/// where there is no extension or it names no container.
pub open spec fn format_of_path(path: Seq<char>) -> ContainerFormat {
    match extension_of(path) {
        Some(ext) => format_of_extension(lower(ext)),
        None => ContainerFormat::Jpeg,
    }
}

/// The container to write: the one asked for if there is one (for
/// `SameAsInput`, that of the source's name), else that of the
/// destination's name.
pub open spec fn resolved_format(
    explicit: Option<OutputFormat>,
    destination: Seq<char>,
    source: Seq<char>,
) -> ContainerFormat {
    match explicit {
        Some(OutputFormat::Jpeg) => ContainerFormat::Jpeg,
        Some(OutputFormat::Png) => ContainerFormat::Png,
        Some(OutputFormat::WebP) => ContainerFormat::WebP,
        Some(OutputFormat::SameAsInput) => format_of_path(source),
        None => format_of_path(destination),
    }
}

/// The part of the size that was saved, in hundredths of a percent, rounded
/// down: zero when there was nothing to begin with or the result is not
/// smaller.
pub open spec fn savings(original_size: u64, compressed_size: u64) -> int {
    if original_size == 0 || compressed_size >= original_size {
        0
    } else {
        (original_size - compressed_size) * 10_000 / (original_size as int)
    }
}

/// Savings are never negative and never above one hundred percent.
pub proof fn lemma_savings_in_range(original_size: u64, compressed_size: u64)
    ensures
        0 <= savings(original_size, compressed_size) <= 10_000,
        compressed_size >= original_size ==> savings(original_size, compressed_size) == 0,
{
    if original_size > 0 && compressed_size < original_size {
        let saved = original_size - compressed_size;
        let all = original_size as int;
        assert(0 <= saved * 10_000 / all <= 10_000) by (nonlinear_arith)
            requires
                0 < saved <= all,
        ;
    }
}

/// The message that refuses a progressive JPEG.
pub open spec fn progressive_rejection() -> Seq<char> {
    "Progressive JPEG encoding is not available"@
}

/// Whether a result holds the bytes, or reports the failure, that a
/// contract describes.
pub open spec fn bytes_result_is(
    r: Result<Vec<u8>, ImageToolError>,
    outcome: Result<Seq<u8>, Failure>,
) -> bool {
    match outcome {
        Ok(bytes) => r is Ok && r->Ok_0@ == bytes,
        Err(failure) => r is Err && r->Err_0.reports(failure),
    }
}

/// The codec's answer as an outcome: its bytes, or a failure of class
/// `Image` with the codec's words.
pub open spec fn codec_outcome(
    answer: Result<Seq<u8>, image::ImageError>,
) -> Result<Seq<u8>, Failure> {
    match answer {
        Ok(bytes) => Ok(bytes),
        Err(e) => Err(Failure::image(image_error_text(e))),
    }
}

/// The compression at which PNG is written: the highest if `png_optimize`
/// is set, else the quick one.
pub open spec fn png_level(flags: EncodeFlags) -> PngCompression {
    if flags.png_optimize {
        PngCompression::Best
    } else {
        PngCompression::Fast
    }
}

/// What encoding a raster gives.
///
/// The quality applies to JPEG alone; the other containers are lossless and
/// take no notice of it. A progressive JPEG is refused as
/// `UnsupportedFormat`. PNG is written at the highest compression if
/// `png_optimize` is set.
pub open spec fn encode_outcome(
    quality: u8,
    raster: Raster,
    format: ContainerFormat,
    flags: EncodeFlags,
) -> Result<Seq<u8>, Failure> {
    if format == ContainerFormat::Jpeg {
        if flags.progressive {
            Err(Failure::unsupported(progressive_rejection()))
        } else {
            codec_outcome(jpeg_encoded(raster, quality))
        }
    } else if format == ContainerFormat::Png {
        codec_outcome(png_encoded(raster, png_level(flags)))
    } else {
        codec_outcome(encoded(raster, format))
    }
}

/// Of two files, the candidate if it is strictly smaller, else the one that
/// was there.
pub open spec fn smaller_of(current: Seq<u8>, candidate: Seq<u8>) -> Seq<u8> {
    if candidate.len() < current.len() {
        candidate
    } else {
        current
    }
}

/// Computes [`smaller_of`].
pub fn keep_smaller(current: &[u8], candidate: Vec<u8>) -> (r: Vec<u8>)
    ensures
        r@ == smaller_of(current@, candidate@),
{
    if candidate.len() < current.len() {
        candidate
    } else {
        vstd::slice::slice_to_vec(current)
    }
}

/// The container that a path's extension names.
pub fn detect_format(path: &str) -> (format: ContainerFormat)
    ensures
        format == format_of_path(path@),
{
    match folded_extension(path) {
        Some(ext) => {
            let e = ext.as_str();
            if same_text(e, "jpg") || same_text(e, "jpeg") {
                ContainerFormat::Jpeg
            } else if same_text(e, "png") {
                ContainerFormat::Png
            } else if same_text(e, "gif") {
                ContainerFormat::Gif
            } else if same_text(e, "bmp") {
                ContainerFormat::Bmp
            } else if same_text(e, "webp") {
                ContainerFormat::WebP
            } else if same_text(e, "tiff") || same_text(e, "tif") {
                ContainerFormat::Tiff
            } else {
                ContainerFormat::Jpeg
            }
        },
        None => ContainerFormat::Jpeg,
    }
}

/// The container to write for a destination, given what was asked for and
/// the name of the source.
pub fn resolve_format(
    explicit: Option<OutputFormat>,
    destination: &str,
    source: &str,
) -> (format: ContainerFormat)
    ensures
        format == resolved_format(explicit, destination@, source@),
{
    match explicit {
        Some(OutputFormat::Jpeg) => ContainerFormat::Jpeg,
        Some(OutputFormat::Png) => ContainerFormat::Png,
        Some(OutputFormat::WebP) => ContainerFormat::WebP,
        Some(OutputFormat::SameAsInput) => detect_format(source),
        None => detect_format(destination),
    }
}

/// Turns the codec's answer into the library's result.
fn from_codec(answer: Result<Vec<u8>, image::ImageError>) -> (r: Result<Vec<u8>, ImageToolError>)
    ensures
        match answer {
            Ok(bytes) => r is Ok && r->Ok_0@ == bytes@,
            Err(e) => r is Err && r->Err_0.reports(Failure::image(image_error_text(e))),
        },
{
    match answer {
        Ok(bytes) => Ok(bytes),
        Err(e) => Err(ImageToolError::Image(describe_image_error(&e))),
    }
}

impl ImageCompressor {
    #[verifier::type_invariant]
    spec fn in_range(self) -> bool {
        MIN_QUALITY <= self.quality <= MAX_QUALITY
    }

    /// The quality at which this compressor encodes.
    pub closed spec fn spec_quality(&self) -> u8 {
        self.quality
    }

    /// A compressor at the given quality, brought into the range from 1 to
    /// 100. Configurations are checked before they get here; the range is
    /// enforced for callers that build a compressor directly.
    pub fn new(quality: u8) -> (compressor: ImageCompressor)
        ensures
            compressor.spec_quality() == clamped_quality(quality),
    {
        let q: u8 = if quality < MIN_QUALITY {
            MIN_QUALITY
        } else if quality > MAX_QUALITY {
            MAX_QUALITY
        } else {
            quality
        };
        ImageCompressor { quality: q }
    }

    /// The quality at which this compressor encodes.
    #[verifier::when_used_as_spec(spec_quality)]
    pub fn quality(&self) -> (q: u8)
        ensures
            q == self.spec_quality(),
            MIN_QUALITY <= q <= MAX_QUALITY,
    {
        proof {
            use_type_invariant(self);
        }
        self.quality
    }

    /// Encodes a raster in a container.
    pub fn encode(
        &self,
        raster: &Raster,
        format: ContainerFormat,
        flags: EncodeFlags,
    ) -> (r: Result<Vec<u8>, ImageToolError>)
        requires
            raster.wf(),
        ensures
            bytes_result_is(r, encode_outcome(self.quality(), *raster, format, flags)),
    {
        match format {
            ContainerFormat::Jpeg => {
                if flags.progressive {
                    Err(
                        ImageToolError::UnsupportedFormat(
                            String::from_str("Progressive JPEG encoding is not available"),
                        ),
                    )
                } else {
                    from_codec(encode_jpeg(raster, self.quality()))
                }
            },
            ContainerFormat::Png => {
                let level = if flags.png_optimize {
                    PngCompression::Best
                } else {
                    PngCompression::Fast
                };
                from_codec(encode_png(raster, level))
            },
            _ => from_codec(encode_image(raster, format)),
        }
    }

    /// Encodes a raster in a container, with every switch off.
    pub fn compress_to_bytes(
        &self,
        raster: &Raster,
        format: ContainerFormat,
    ) -> (r: Result<Vec<u8>, ImageToolError>)
        requires
            raster.wf(),
        ensures
            bytes_result_is(
                r,
                encode_outcome(
                    self.quality(),
                    *raster,
                    format,
                    (EncodeFlags { progressive: false, png_optimize: false }),
                ),
            ),
    {
        self.encode(raster, format, EncodeFlags { progressive: false, png_optimize: false })
    }

    /// The contents of the file to store at `path`: the raster encoded in
    /// the container that the path's extension names. The caller writes
    /// them; nothing is written when this fails.
    pub fn save(&self, raster: &Raster, path: &str) -> (r: Result<Vec<u8>, ImageToolError>)
        requires
            raster.wf(),
        ensures
            bytes_result_is(
                r,
                encode_outcome(
                    self.quality(),
                    *raster,
                    format_of_path(path@),
                    (EncodeFlags { progressive: false, png_optimize: false }),
                ),
            ),
    {
        self.compress_to_bytes(raster, detect_format(path))
    }

    /// What [`ImageCompressor::optimize_jpeg`] gives: the image decoded and
    /// written again as JPEG at this compressor's quality.
    pub open spec fn optimize_jpeg_outcome(&self, data: Seq<u8>) -> Result<Seq<u8>, Failure> {
        match decode_outcome(data, "Failed to load JPEG: "@) {
            Ok(raster) => codec_outcome(jpeg_encoded(raster, self.quality())),
            Err(failure) => Err(failure),
        }
    }

    /// Decodes an image and writes it again as JPEG at this compressor's
    /// quality.
    pub fn optimize_jpeg(&self, data: &[u8]) -> (r: Result<Vec<u8>, ImageToolError>)
        ensures
            bytes_result_is(r, self.optimize_jpeg_outcome(data@)),
    {
        let raster = decode_with_context(data, "Failed to load JPEG: ")?;
        from_codec(encode_jpeg(&raster, self.quality()))
    }

    /// What [`ImageCompressor::optimize_png`] gives: the image decoded and
    /// written again as PNG at the highest compression, if that is smaller;
    /// else the bytes as they came.
    pub open spec fn optimize_png_outcome(&self, data: Seq<u8>) -> Result<Seq<u8>, Failure> {
        match decode_outcome(data, "Failed to load PNG: "@) {
            Ok(raster) => match codec_outcome(png_encoded(raster, PngCompression::Best)) {
                Ok(candidate) => Ok(smaller_of(data, candidate)),
                Err(failure) => Err(failure),
            },
            Err(failure) => Err(failure),
        }
    }

    /// Decodes an image and writes it again as PNG at the highest
    /// compression. The result is never larger than what came in.
    pub fn optimize_png(&self, data: &[u8]) -> (r: Result<Vec<u8>, ImageToolError>)
        ensures
            bytes_result_is(r, self.optimize_png_outcome(data@)),
            r is Ok ==> r->Ok_0@.len() <= data@.len(),
    {
        let raster = decode_with_context(data, "Failed to load PNG: ")?;
        let candidate = from_codec(encode_png(&raster, PngCompression::Best))?;
        Ok(keep_smaller(data, candidate))
    }

    /// The part of the size that was saved, in hundredths of a percent
    /// (10,000 for everything), rounded down. A result that grew saved
    /// nothing: the answer is zero, never negative.
    pub fn calculate_savings(&self, original_size: u64, compressed_size: u64) -> (r: u32)
        ensures
            r == savings(original_size, compressed_size),
            r <= 10_000,
            compressed_size >= original_size ==> r == 0,
    {
        proof {
            lemma_savings_in_range(original_size, compressed_size);
        }
        if original_size == 0 || compressed_size >= original_size {
            return 0;
        }
        let saved: u128 = (original_size - compressed_size) as u128;
        (saved * 10_000 / (original_size as u128)) as u32
    }
}

} // verus!
