//! The error type shared by every stage of the pipeline.

use vstd::prelude::*;
use vstd::string::StringExecFns;

verus! {

/// The class of a failure, without its message.
#[derive(Clone, Copy, Debug, PartialEq, Eq, Structural)]
pub enum ErrorKind {
    /// A file could not be read or written.
    Io,
    /// The codec could not decode the data, or could not encode the raster.
    Image,
    /// A parameter or a path is not acceptable.
    InvalidParameter,
    /// The requested container or encoding mode is not available.
    UnsupportedFormat,
    /// A stage of the pipeline failed on the data it was given.
    Processing,
}

/// A failure of the pipeline, with a message for the user.
#[derive(Clone, Debug)]
pub enum ImageToolError {
    /// A file could not be read or written.
    Io(String),
    /// The codec could not decode the data, or could not encode the raster.
    Image(String),
    /// A parameter or a path is not acceptable.
    InvalidParameter(String),
    /// The requested container or encoding mode is not available.
    UnsupportedFormat(String),
    /// A stage of the pipeline failed on the data it was given.
    ProcessingError(String),
}

/// A failure as contracts speak of it: its class and its message.
pub struct Failure {
    /// The class of the failure.
    pub kind: ErrorKind,
    /// The message of the failure.
    pub detail: Seq<char>,
}

impl Failure {
    /// A failure of class `InvalidParameter`.
    pub open spec fn invalid(detail: Seq<char>) -> Failure {
        Failure { kind: ErrorKind::InvalidParameter, detail }
    }

    /// A failure of class `Processing`.
    pub open spec fn processing(detail: Seq<char>) -> Failure {
        Failure { kind: ErrorKind::Processing, detail }
    }

    /// A failure of class `Image`.
    pub open spec fn image(detail: Seq<char>) -> Failure {
        Failure { kind: ErrorKind::Image, detail }
    }

    /// A failure of class `UnsupportedFormat`.
    pub open spec fn unsupported(detail: Seq<char>) -> Failure {
        Failure { kind: ErrorKind::UnsupportedFormat, detail }
    }
}

impl View for ImageToolError {
    type V = Failure;

    /// The class and the message of this failure.
    open spec fn view(&self) -> Failure {
        Failure { kind: self.kind_of(), detail: self.detail() }
    }
}

impl ImageToolError {
    /// The class of this failure.
    pub open spec fn kind_of(&self) -> ErrorKind {
        match self {
            ImageToolError::Io(_) => ErrorKind::Io,
            ImageToolError::Image(_) => ErrorKind::Image,
            ImageToolError::InvalidParameter(_) => ErrorKind::InvalidParameter,
            ImageToolError::UnsupportedFormat(_) => ErrorKind::UnsupportedFormat,
            ImageToolError::ProcessingError(_) => ErrorKind::Processing,
        }
    }

    /// The message carried by this failure.
    pub open spec fn detail(&self) -> Seq<char> {
        match self {
            ImageToolError::Io(m) => m@,
            ImageToolError::Image(m) => m@,
            ImageToolError::InvalidParameter(m) => m@,
            ImageToolError::UnsupportedFormat(m) => m@,
            ImageToolError::ProcessingError(m) => m@,
        }
    }

    /// Whether this failure is the one described: it has that class and that
    /// message.
    pub open spec fn reports(&self, failure: Failure) -> bool {
        self.kind_of() == failure.kind && self.detail() == failure.detail
    }

    /// The words that introduce a failure of the given class.
    pub open spec fn prefix_of(kind: ErrorKind) -> Seq<char> {
        match kind {
            ErrorKind::Io => "IO error: "@,
            ErrorKind::Image => "Image error: "@,
            ErrorKind::InvalidParameter => "Invalid parameter: "@,
            ErrorKind::UnsupportedFormat => "Unsupported format: "@,
            ErrorKind::Processing => "Processing error: "@,
        }
    }

    /// The full text shown to the user: the class in words, then the message.
    pub open spec fn text(&self) -> Seq<char> {
        Self::prefix_of(self.kind_of()) + self.detail()
    }

    /// The class of this failure.
    pub fn kind(&self) -> (k: ErrorKind)
        ensures
            k == self.kind_of(),
    {
        match self {
            ImageToolError::Io(_) => ErrorKind::Io,
            ImageToolError::Image(_) => ErrorKind::Image,
            ImageToolError::InvalidParameter(_) => ErrorKind::InvalidParameter,
            ImageToolError::UnsupportedFormat(_) => ErrorKind::UnsupportedFormat,
            ImageToolError::ProcessingError(_) => ErrorKind::Processing,
        }
    }

    /// The full text shown to the user.
    pub fn message(&self) -> (s: String)
        ensures
            s@ == self.text(),
    {
        match self {
            ImageToolError::Io(m) => String::from_str("IO error: ").concat(m.as_str()),
            ImageToolError::Image(m) => String::from_str("Image error: ").concat(m.as_str()),
            ImageToolError::InvalidParameter(m) => String::from_str("Invalid parameter: ").concat(
                m.as_str(),
            ),
            ImageToolError::UnsupportedFormat(m) => String::from_str(
                "Unsupported format: ",
            ).concat(m.as_str()),
            ImageToolError::ProcessingError(m) => String::from_str("Processing error: ").concat(
                m.as_str(),
            ),
        }
    }

    /// A failure of class `InvalidParameter` with the given message.
    pub fn invalid_parameter(detail: &str) -> (e: ImageToolError)
        ensures
            e.reports(Failure::invalid(detail@)),
    {
        ImageToolError::InvalidParameter(String::from_str(detail))
    }

    /// A failure of class `Processing` with the given message.
    pub fn processing(detail: String) -> (e: ImageToolError)
        ensures
            e.reports(Failure::processing(detail@)),
    {
        ImageToolError::ProcessingError(detail)
    }
}

} // verus!
