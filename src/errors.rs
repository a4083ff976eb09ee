//! The failure taxonomy of a request and of each backend call.
use vstd::prelude::*;

verus! {

/// Why a backend call did not yield a usable answer.
#[derive(Debug, Clone, Copy, PartialEq, Eq, Structural)]
pub enum BackendError {
    /// The backend could not be reached, or answered with a server error.
    Unavailable,
    /// The bounded wait for the backend ran out.
    Timeout,
    /// The backend declared the request wrong (a client-error status).
    Rejected { status: u16 },
    /// The backend answered outside its contract.
    Malformed,
}

impl BackendError {
    /// Whether a retry might succeed: timeouts and unavailability are
    /// transient, rejections and malformed answers permanent.
    pub open spec fn transient(&self) -> bool {
        self is Unavailable || self is Timeout
    }

    /// Whether a retry might succeed.
    pub fn is_transient(&self) -> (r: bool)
        ensures
            r == self.transient(),
    {
        match self {
            BackendError::Unavailable | BackendError::Timeout => true,
            _ => false,
        }
    }
}

/// Why a whole request failed.
#[derive(Debug, Clone, Copy, PartialEq, Eq, Structural)]
pub enum PipelineError {
    /// No bytes were uploaded.
    EmptyPayload,
    /// The upload is larger than the configured ceiling.
    PayloadTooLarge { size: usize, limit: usize },
    /// The upload is not declared as a PDF.
    UnsupportedMediaType,
    /// Text extraction failed; nothing downstream can run.
    Extraction(BackendError),
}

/// The caller-facing message of each request failure.
pub open spec fn error_message(e: PipelineError) -> Seq<char> {
    match e {
        PipelineError::EmptyPayload => "No file uploaded"@,
        PipelineError::PayloadTooLarge { .. } => "Uploaded file is too large"@,
        PipelineError::UnsupportedMediaType => "Only application/pdf uploads are accepted"@,
        PipelineError::Extraction(_) => "Text extraction failed"@,
    }
}

impl PipelineError {
    /// The caller-facing message of this failure.
    pub fn message(&self) -> (r: String)
        ensures
            r@ == error_message(*self),
    {
        match self {
            PipelineError::EmptyPayload => String::from_str("No file uploaded"),
            PipelineError::PayloadTooLarge { .. } => String::from_str("Uploaded file is too large"),
            PipelineError::UnsupportedMediaType => String::from_str(
                "Only application/pdf uploads are accepted",
            ),
            PipelineError::Extraction(_) => String::from_str("Text extraction failed"),
        }
    }
}

} // verus!
