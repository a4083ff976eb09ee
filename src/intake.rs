//! Intake and validation of an uploaded brief.
use crate::errors::PipelineError;
use crate::text::same_text;
use vstd::prelude::*;

verus! {

/// Largest upload accepted unless configured otherwise: 20 MiB.
pub const DEFAULT_MAX_UPLOAD_BYTES: usize = 20_971_520;

/// The one media type accepted.
pub open spec fn pdf_media_type() -> Seq<char> {
    "application/pdf"@
}

/// An uploaded document that passed intake.
#[derive(Debug, Clone)]
pub struct UploadedArtifact {
    pub bytes: Vec<u8>,
    pub media_type: String,
    pub file_name: String,
}

impl UploadedArtifact {
    /// The payload is not empty and is declared as a PDF.
    pub open spec fn wf(&self) -> bool {
        self.bytes@.len() > 0 && self.media_type@ == pdf_media_type()
    }
}

/// What intake decides for an upload: the checks run in this order.
pub open spec fn intake_verdict(len: nat, media_type: Seq<char>, max_bytes: nat) -> Option<
    PipelineError,
> {
    if len == 0 {
        Some(PipelineError::EmptyPayload)
    } else if len > max_bytes {
        Some(PipelineError::PayloadTooLarge { size: len as usize, limit: max_bytes as usize })
    } else if media_type != pdf_media_type() {
        Some(PipelineError::UnsupportedMediaType)
    } else {
        None
    }
}

/// Accepts an upload, or says why it is refused: empty, over `max_bytes`, or
/// not declared as `application/pdf`.
pub fn validate_upload(bytes: Vec<u8>, media_type: String, file_name: String, max_bytes: usize) -> (r:
    Result<UploadedArtifact, PipelineError>)
    ensures
        intake_verdict(bytes@.len(), media_type@, max_bytes as nat) matches Some(e) ==> r == Err::<
            UploadedArtifact,
            PipelineError,
        >(e),
        intake_verdict(bytes@.len(), media_type@, max_bytes as nat) is None ==> (r matches Ok(a) && a.bytes
            == bytes && a.media_type == media_type && a.file_name == file_name && a.wf()),
{
    proof {
        reveal_strlit("application/pdf");
    }
    if bytes.len() == 0 {
        return Err(PipelineError::EmptyPayload);
    }
    if bytes.len() > max_bytes {
        return Err(PipelineError::PayloadTooLarge { size: bytes.len(), limit: max_bytes });
    }
    if !same_text(media_type.as_str(), "application/pdf") {
        return Err(PipelineError::UnsupportedMediaType);
    }
    Ok(UploadedArtifact { bytes, media_type, file_name })
}

} // verus!
