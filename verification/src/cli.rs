//! The choices offered on the command line, and what they stand for.

use vstd::prelude::*;
use vstd::std_specs::convert::FromSpecImpl;
use crate::config::ResizeAlgorithm;

verus! {

/// A resampling filter, as named on the command line.
#[derive(Clone, Copy, Debug, PartialEq, Eq, Structural)]
pub enum Algorithm {
    /// Nearest neighbour.
    Nearest,
    /// Linear interpolation.
    Bilinear,
    /// Cubic interpolation.
    Bicubic,
    /// Lanczos with a window of three.
    Lanczos3,
}

/// A container, as named on the command line.
#[derive(Clone, Copy, Debug, PartialEq, Eq, Structural)]
pub enum OutputFormat {
    /// JPEG.
    Jpeg,
    /// PNG.
    Png,
    /// WebP.
    WebP,
    /// The container of the source file.
    Same,
}

impl From<Algorithm> for ResizeAlgorithm {
    fn from(value: Algorithm) -> (r: ResizeAlgorithm) {
        match value {
            Algorithm::Nearest => ResizeAlgorithm::Nearest,
            Algorithm::Bilinear => ResizeAlgorithm::Bilinear,
            Algorithm::Bicubic => ResizeAlgorithm::Bicubic,
            Algorithm::Lanczos3 => ResizeAlgorithm::Lanczos3,
        }
    }
}

impl FromSpecImpl<Algorithm> for ResizeAlgorithm {
    open spec fn obeys_from_spec() -> bool {
        true
    }

    open spec fn from_spec(value: Algorithm) -> ResizeAlgorithm {
        match value {
            Algorithm::Nearest => ResizeAlgorithm::Nearest,
            Algorithm::Bilinear => ResizeAlgorithm::Bilinear,
            Algorithm::Bicubic => ResizeAlgorithm::Bicubic,
            Algorithm::Lanczos3 => ResizeAlgorithm::Lanczos3,
        }
    }
}

impl From<OutputFormat> for crate::config::OutputFormat {
    fn from(value: OutputFormat) -> (r: crate::config::OutputFormat) {
        match value {
            OutputFormat::Jpeg => crate::config::OutputFormat::Jpeg,
            OutputFormat::Png => crate::config::OutputFormat::Png,
            OutputFormat::WebP => crate::config::OutputFormat::WebP,
            OutputFormat::Same => crate::config::OutputFormat::SameAsInput,
        }
    }
}

impl FromSpecImpl<OutputFormat> for crate::config::OutputFormat {
    open spec fn obeys_from_spec() -> bool {
        true
    }

    open spec fn from_spec(value: OutputFormat) -> crate::config::OutputFormat {
        match value {
            OutputFormat::Jpeg => crate::config::OutputFormat::Jpeg,
            OutputFormat::Png => crate::config::OutputFormat::Png,
            OutputFormat::WebP => crate::config::OutputFormat::WebP,
            OutputFormat::Same => crate::config::OutputFormat::SameAsInput,
        }
    }
}

} // verus!
