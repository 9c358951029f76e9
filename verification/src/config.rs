//! The description of one transformation, and its validation.

use vstd::prelude::*;
use crate::error::{Failure, ImageToolError};
use crate::geometry::ResizeMode;
use crate::scale::ScaleFactor;

verus! {

/// Largest width or height, in pixels, that a configuration may ask for.
pub const MAX_DIMENSION: u32 = 100_000;

/// Lowest quality setting.
pub const MIN_QUALITY: u8 = 1;

/// Highest quality setting.
pub const MAX_QUALITY: u8 = 100;

/// The resampling filter used when a raster changes size. The choice trades
/// speed against quality and has no influence on the target dimensions.
#[derive(Clone, Copy, Debug, PartialEq, Eq, Structural)]
pub enum ResizeAlgorithm {
    /// Nearest neighbour.
    Nearest,
    /// Linear interpolation.
    Bilinear,
    /// Cubic interpolation.
    Bicubic,
    /// Lanczos with a window of three.
    Lanczos3,
}

/// The container that the result is written in.
#[derive(Clone, Copy, Debug, PartialEq, Eq, Structural)]
pub enum OutputFormat {
    /// JPEG.
    Jpeg,
    /// PNG.
    Png,
    /// WebP.
    WebP,
    /// The container of the source file.
    SameAsInput,
}

/// Switches of the encoder.
#[derive(Clone, Copy, Debug, PartialEq, Eq, Structural)]
pub struct EncodeFlags {
    /// Ask for a progressive JPEG. The codec writes baseline JPEG only, so
    /// this is refused for JPEG and ignored elsewhere.
    pub progressive: bool,
    /// Write PNG at the highest compression.
    pub png_optimize: bool,
}

/// One transformation: what to resize to, how to encode, what to drop.
#[derive(Clone, Copy, Debug)]
pub struct ProcessConfig {
    /// Target width in pixels; zero if not given.
    pub width: u32,
    /// Target height in pixels; zero if not given.
    pub height: u32,
    /// Scale factor; `None` if not given. It takes precedence over `width`
    /// and `height`.
    pub scale: Option<ScaleFactor>,
    /// Quality of lossy encoding, from 1 to 100.
    pub quality: u8,
    /// Whether a resize keeps the proportions of the source.
    pub keep_aspect: bool,
    /// Whether metadata is removed from the source before it is decoded.
    pub strip_metadata: bool,
    /// The resampling filter.
    pub algorithm: ResizeAlgorithm,
    /// The container of the result; `None` to go by the destination's name.
    pub format: Option<OutputFormat>,
    /// Largest source, in bytes, that is processed; `None` for no limit.
    pub max_file_size: Option<u64>,
    /// The switches of the encoder.
    pub encode_flags: EncodeFlags,
}

/// Why a configuration is refused, if it is.
pub enum ConfigFault {
    /// The width or the height is above [`MAX_DIMENSION`].
    TooLarge,
    /// A resize is asked for, and neither a width, a height nor a scale is given.
    NoDimension,
    /// The quality is not between 1 and 100.
    BadQuality,
}

impl ConfigFault {
    /// The message that reports this fault.
    pub open spec fn text(self) -> Seq<char> {
        match self {
            ConfigFault::TooLarge => "Dimensions too large (max 100,000 pixels)"@,
            ConfigFault::NoDimension => "At least one dimension must be specified"@,
            ConfigFault::BadQuality => "Quality must be between 1 and 100"@,
        }
    }
}

impl ProcessConfig {
    /// Whether the configuration names a target size: a width, a height or a
    /// scale factor.
    pub open spec fn names_a_size(&self) -> bool {
        self.width > 0 || self.height > 0 || self.scale is Some
    }

    /// Whether the configuration is acceptable for a command that does
    /// (`resize_requested`) or does not resize.
    pub open spec fn is_valid(&self, resize_requested: bool) -> bool {
        &&& MIN_QUALITY <= self.quality <= MAX_QUALITY
        &&& self.width <= MAX_DIMENSION
        &&& self.height <= MAX_DIMENSION
        &&& resize_requested ==> self.names_a_size()
    }

    /// The first fault of the configuration, in the order in which
    /// [`ProcessConfig::validate`] looks for them.
    pub open spec fn first_fault(&self, resize_requested: bool) -> Option<ConfigFault> {
        if self.width > MAX_DIMENSION || self.height > MAX_DIMENSION {
            Some(ConfigFault::TooLarge)
        } else if resize_requested && !self.names_a_size() {
            Some(ConfigFault::NoDimension)
        } else if self.quality < MIN_QUALITY || self.quality > MAX_QUALITY {
            Some(ConfigFault::BadQuality)
        } else {
            None
        }
    }

    /// The resize that the configuration asks for: by the scale factor if
    /// there is one, else by width and height if one of them is given.
    pub open spec fn resize_mode_of(&self) -> Option<ResizeMode> {
        match self.scale {
            Some(f) => Some(ResizeMode::Scale(f)),
            None => if self.width > 0 || self.height > 0 {
                Some(ResizeMode::Absolute(self.width, self.height))
            } else {
                None
            },
        }
    }

    /// Checks the configuration and changes nothing.
    ///
    /// A quality outside 1 to 100 is refused, not brought into range. The
    /// configuration is accepted exactly when it is valid; otherwise the
    /// failure is `InvalidParameter` and names the first fault.
    pub fn validate(&self, resize_requested: bool) -> (r: Result<(), ImageToolError>)
        ensures
            r is Ok <==> self.is_valid(resize_requested),
            r is Ok <==> self.first_fault(resize_requested) is None,
            r is Err ==> r->Err_0.reports(
                Failure::invalid(self.first_fault(resize_requested)->Some_0.text()),
            ),
    {
        if self.width > MAX_DIMENSION || self.height > MAX_DIMENSION {
            return Err(
                ImageToolError::invalid_parameter("Dimensions too large (max 100,000 pixels)"),
            );
        }
        if resize_requested && self.width == 0 && self.height == 0 && self.scale.is_none() {
            return Err(
                ImageToolError::invalid_parameter("At least one dimension must be specified"),
            );
        }
        if self.quality < MIN_QUALITY || self.quality > MAX_QUALITY {
            return Err(ImageToolError::invalid_parameter("Quality must be between 1 and 100"));
        }
        Ok(())
    }

    /// The resize that the configuration asks for, if any.
    pub fn resize_mode(&self) -> (m: Option<ResizeMode>)
        ensures
            m == self.resize_mode_of(),
            m is Some <==> self.names_a_size(),
    {
        match self.scale {
            Some(f) => Some(ResizeMode::Scale(f)),
            None => if self.width > 0 || self.height > 0 {
                Some(ResizeMode::Absolute(self.width, self.height))
            } else {
                None
            },
        }
    }
}

impl Default for ProcessConfig {
    /// No resize, quality 85, proportions kept, metadata kept, Lanczos,
    /// every switch of the encoder off.
    fn default() -> (c: ProcessConfig)
        ensures
            c.width == 0,
            c.height == 0,
            c.scale is None,
            c.quality == 85,
            c.keep_aspect,
            !c.strip_metadata,
            c.algorithm == ResizeAlgorithm::Lanczos3,
            c.format is None,
            c.max_file_size is None,
            c.encode_flags == (EncodeFlags { progressive: false, png_optimize: false }),
            c.is_valid(false),
    {
        ProcessConfig {
            width: 0,
            height: 0,
            scale: None,
            quality: 85,
            keep_aspect: true,
            strip_metadata: false,
            algorithm: ResizeAlgorithm::Lanczos3,
            format: None,
            max_file_size: None,
            encode_flags: EncodeFlags { progressive: false, png_optimize: false },
        }
    }
}

} // verus!
