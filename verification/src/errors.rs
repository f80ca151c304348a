use vstd::prelude::*;

verus! {

/// Error taxonomy of the pipeline.
///
/// Every pre-stream failure is resolved before any audio byte is written, so
/// the HTTP status of a response is always accurate. `GenerationFailed` is the
/// one error that can only arise after the response has started; it surfaces
/// as an abrupt end of the byte stream, never as a changed status line.
#[derive(Clone, Copy, PartialEq, Eq, Structural, Debug)]
pub enum PipelineError {
    /// The inbound request is malformed: `input` missing or empty.
    InvalidRequest,
    /// A conversation with zero turns reached the formatter (internal defect).
    EmptyConversation,
    /// A sampling configuration broke its invariants (internal defect).
    InvalidConfig,
    /// The backend handle cannot accept new work.
    BackendUnavailable,
    /// The backend failed mid-generation, after headers were sent.
    GenerationFailed,
}

/// The HTTP status class each error resolves to when it occurs before the
/// stream starts. `GenerationFailed` never chooses a status (the `200` line is
/// already on the wire); it is mapped here to the internal-error class for
/// completeness.
pub open spec fn spec_status_code(e: PipelineError) -> u16 {
    match e {
        PipelineError::InvalidRequest => 400,
        PipelineError::EmptyConversation => 500,
        PipelineError::InvalidConfig => 500,
        PipelineError::BackendUnavailable => 503,
        PipelineError::GenerationFailed => 500,
    }
}

/// HTTP status code for a pre-stream error.
pub fn status_code(e: &PipelineError) -> (code: u16)
    ensures
        code == spec_status_code(*e),
{
    match e {
        PipelineError::InvalidRequest => 400,
        PipelineError::EmptyConversation => 500,
        PipelineError::InvalidConfig => 500,
        PipelineError::BackendUnavailable => 503,
        PipelineError::GenerationFailed => 500,
    }
}

} // verus!
