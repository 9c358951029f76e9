//! The pipeline for one image: load, strip, resize, encode.

use vstd::prelude::*;
use crate::compressor::{
    clamped_quality, encode_outcome, resolve_format, resolved_format, ImageCompressor,
};
use crate::config::ProcessConfig;
use crate::error::{Failure, ImageToolError};
use crate::geometry::target_dimensions;
use crate::container::stripped;
use crate::loader::{load_outcome, ImageLoader};
use crate::metadata::MetadataStripper;
use crate::raster::Raster;
use crate::resizer::ImageResizer;
use crate::text::concat;

verus! {

/// The sizes of one processed file, before and after.
#[derive(Clone, Copy, Debug, PartialEq, Eq, Structural)]
pub struct ProcessingStats {
    /// Size of the source file in bytes.
    pub input_size: u64,
    /// Size of the written file in bytes.
    pub output_size: u64,
    /// Width of the source in pixels.
    pub width_before: u32,
    /// Height of the source in pixels.
    pub height_before: u32,
    /// Width of the result in pixels.
    pub width_after: u32,
    /// Height of the result in pixels.
    pub height_after: u32,
}

/// The result of the pipeline for one file: the contents to write at the
/// destination, and the statistics of the run.
#[derive(Debug)]
pub struct ProcessedImage {
    /// The contents of the destination file.
    pub bytes: Vec<u8>,
    /// Sizes before and after.
    pub stats: ProcessingStats,
}

/// Runs the pipeline under one configuration.
#[derive(Clone, Copy, Debug)]
pub struct ImageProcessor {
    config: ProcessConfig,
}

/// What the pipeline gives, as contracts speak of it.
pub struct Processed {
    /// The contents of the destination file.
    pub bytes: Seq<u8>,
    /// Sizes before and after.
    pub stats: ProcessingStats,
}

/// The message that refuses a source above the configured size.
pub open spec fn size_rejection(path: Seq<char>) -> Seq<char> {
    "File exceeds the maximum size: "@ + path
}

impl ProcessingStats {
    /// The statistics of a run that read `input_len` bytes, decoded a
    /// `before` raster, and wrote `output_len` bytes of an `after` raster.
    pub open spec fn of(
        input_len: nat,
        before: Raster,
        after: Raster,
        output_len: nat,
    ) -> ProcessingStats {
        ProcessingStats {
            input_size: input_len as u64,
            output_size: output_len as u64,
            width_before: before.width(),
            height_before: before.height(),
            width_after: after.width(),
            height_after: after.height(),
        }
    }

    /// The statistics of one run, from its sizes.
    pub fn new(
        input_size: u64,
        output_size: u64,
        before: (u32, u32),
        after: (u32, u32),
    ) -> (stats: ProcessingStats)
        ensures
            stats == (ProcessingStats {
                input_size,
                output_size,
                width_before: before.0,
                height_before: before.1,
                width_after: after.0,
                height_after: after.1,
            }),
    {
        ProcessingStats {
            input_size,
            output_size,
            width_before: before.0,
            height_before: before.1,
            width_after: after.0,
            height_after: after.1,
        }
    }
}

/// The resizer that a configuration asks for.
pub open spec fn resizer_of(config: ProcessConfig) -> ImageResizer {
    ImageResizer { algorithm: config.algorithm, keep_aspect: config.keep_aspect }
}

/// The bytes that are decoded: the contents of the source, without their
/// Exif data if the configuration asks for that.
pub open spec fn decoded_bytes(config: ProcessConfig, contents: Seq<u8>) -> Seq<u8> {
    if config.strip_metadata {
        stripped(contents)
    } else {
        contents
    }
}

/// The raster that is encoded: the decoded one, resized if the
/// configuration names a size.
pub open spec fn shaped(config: ProcessConfig, raster: Raster) -> Result<Raster, Failure> {
    match config.resize_mode_of() {
        Some(mode) => resizer_of(config).resize_outcome(raster, mode),
        None => Ok(raster),
    }
}

/// What the pipeline gives under a configuration. The stages run in order
/// and the first failure ends the run:
///
/// 1. a source that does not exist is refused;
/// 2. a source above the configured size is refused;
/// 3. the contents, stripped if asked for, are decoded;
/// 4. the raster is resized if the configuration names a size;
/// 5. the raster is encoded in the resolved container, with the switches
///    of the configuration.
///
/// The statistics hold the length of the contents as they were read, the
/// length of what is to be written, and the dimensions before and after.
pub open spec fn process_outcome(
    config: ProcessConfig,
    input_path: Seq<char>,
    contents: Option<Seq<u8>>,
    output_path: Seq<char>,
) -> Result<Processed, Failure> {
    match contents {
        None => Err(Failure::invalid("File does not exist: "@ + input_path)),
        Some(data) => {
            if config.max_file_size is Some && data.len() > config.max_file_size->Some_0 {
                Err(Failure::invalid(size_rejection(input_path)))
            } else {
                match load_outcome(input_path, Some(decoded_bytes(config, data))) {
                    Err(failure) => Err(failure),
                    Ok(before) => match shaped(config, before) {
                        Err(failure) => Err(failure),
                        Ok(after) => match encode_outcome(
                            clamped_quality(config.quality),
                            after,
                            resolved_format(config.format, output_path, input_path),
                            config.encode_flags,
                        ) {
                            Err(failure) => Err(failure),
                            Ok(bytes) => Ok(
                                Processed {
                                    bytes,
                                    stats: ProcessingStats::of(
                                        data.len(),
                                        before,
                                        after,
                                        bytes.len(),
                                    ),
                                },
                            ),
                        },
                    },
                }
            }
        },
    }
}

/// Whether the dimensions in the statistics are those that the configuration
/// asks for: where it names a size, the result has the target dimensions of
/// the source under the configured policy on proportions; where it names
/// none, the result has the dimensions of the source.
pub open spec fn sized_as_asked(config: ProcessConfig, stats: ProcessingStats) -> bool {
    match config.resize_mode_of() {
        Some(mode) => (stats.width_after as int, stats.height_after as int) == target_dimensions(
            stats.width_before,
            stats.height_before,
            mode,
            config.keep_aspect,
        ),
        None => stats.width_after == stats.width_before && stats.height_after
            == stats.height_before,
    }
}

/// The contents of a file as contracts speak of them.
pub open spec fn contents_view(contents: Option<&[u8]>) -> Option<Seq<u8>> {
    match contents {
        Some(data) => Some(data@),
        None => None,
    }
}

/// Whether a result is the outcome that a contract describes.
pub open spec fn processed_result_is(
    r: Result<ProcessedImage, ImageToolError>,
    outcome: Result<Processed, Failure>,
) -> bool {
    match outcome {
        Ok(expected) => r is Ok && r->Ok_0.bytes@ == expected.bytes && r->Ok_0.stats
            == expected.stats,
        Err(failure) => r is Err && r->Err_0.reports(failure),
    }
}

impl ImageProcessor {
    /// The configuration under which this processor runs.
    pub closed spec fn spec_config(&self) -> ProcessConfig {
        self.config
    }

    /// A processor for the given configuration.
    pub fn new(config: ProcessConfig) -> (processor: ImageProcessor)
        ensures
            processor.spec_config() == config,
    {
        ImageProcessor { config }
    }

    /// The configuration under which this processor runs.
    #[verifier::when_used_as_spec(spec_config)]
    pub fn config(&self) -> (config: ProcessConfig)
        ensures
            config == self.spec_config(),
    {
        self.config
    }

    /// Runs the pipeline on the contents of the file at `input_path`, as the
    /// caller read them (`None` for a file that does not exist), and returns
    /// the contents to write at `output_path`. The destination is written by
    /// the caller, and only after the whole pipeline has succeeded: a
    /// failure leaves nothing behind.
    pub fn process(
        &self,
        input_path: &str,
        contents: Option<&[u8]>,
        output_path: &str,
    ) -> (r: Result<ProcessedImage, ImageToolError>)
        ensures
            processed_result_is(
                r,
                process_outcome(self.config(), input_path@, contents_view(contents), output_path@),
            ),
            r is Ok ==> sized_as_asked(self.config(), r->Ok_0.stats),
            r is Ok ==> r->Ok_0.stats.input_size == contents->Some_0@.len(),
            r is Ok ==> r->Ok_0.stats.output_size == r->Ok_0.bytes@.len(),
    {
        let data: &[u8] = match contents {
            Some(data) => data,
            None => {
                return Err(
                    ImageToolError::InvalidParameter(concat("File does not exist: ", input_path)),
                );
            },
        };
        match self.config.max_file_size {
            Some(limit) => {
                if data.len() as u64 > limit {
                    return Err(
                        ImageToolError::InvalidParameter(
                            concat("File exceeds the maximum size: ", input_path),
                        ),
                    );
                }
            },
            None => {},
        }
        let loader = ImageLoader::new();
        let stripper = MetadataStripper::new();
        let mut before: Raster = if self.config.strip_metadata {
            let clean = stripper.strip_metadata_from_bytes(data)?;
            loader.load(input_path, Some(clean.as_slice()))?
        } else {
            loader.load(input_path, Some(data))?
        };
        if self.config.strip_metadata {
            stripper.strip_metadata(&mut before)?;
        }
        let size_before: (u32, u32) = (before.width(), before.height());
        let after: Raster = match self.config.resize_mode() {
            Some(mode) => {
                let resizer = ImageResizer::new(self.config.algorithm, self.config.keep_aspect);
                resizer.resize(&before, mode)?
            },
            None => before,
        };
        let compressor = ImageCompressor::new(self.config.quality);
        let format = resolve_format(self.config.format, output_path, input_path);
        let bytes = compressor.encode(&after, format, self.config.encode_flags)?;
        let stats = ProcessingStats::new(
            data.len() as u64,
            bytes.len() as u64,
            size_before,
            (after.width(), after.height()),
        );
        Ok(ProcessedImage { bytes, stats })
    }

    /// Runs the pipeline on one file; the same as [`ImageProcessor::process`].
    pub fn process_single(
        &self,
        input_path: &str,
        contents: Option<&[u8]>,
        output_path: &str,
    ) -> (r: Result<ProcessedImage, ImageToolError>)
        ensures
            processed_result_is(
                r,
                process_outcome(self.config(), input_path@, contents_view(contents), output_path@),
            ),
            r is Ok ==> sized_as_asked(self.config(), r->Ok_0.stats),
            r is Ok ==> r->Ok_0.stats.input_size == contents->Some_0@.len(),
            r is Ok ==> r->Ok_0.stats.output_size == r->Ok_0.bytes@.len(),
    {
        self.process(input_path, contents, output_path)
    }
}

} // verus!
