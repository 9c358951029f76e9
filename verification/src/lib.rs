//! Converting, resizing and recompressing raster images, one at a time or
//! over the files of a directory.
//!
//! The library works on bytes and plain values: the caller reads the files
//! and writes the results. One image goes through [`ImageProcessor`]: load,
//! strip, resize, encode. A batch goes through [`batch::BatchProcessor`],
//! which gives every file its own outcome and adds the outcomes up.

pub mod batch;
pub mod cli;
pub mod compressor;
pub mod config;
pub mod container;
pub mod error;
pub mod geometry;
pub mod loader;
pub mod metadata;
pub mod paths;
pub mod processor;
pub mod raster;
pub mod resizer;
pub mod scale;
pub mod stats;
pub mod text;
pub mod utils;

pub use crate::config::{EncodeFlags, OutputFormat, ProcessConfig, ResizeAlgorithm};
pub use crate::error::{ErrorKind, ImageToolError};
pub use crate::processor::{ImageProcessor, ProcessedImage, ProcessingStats};
