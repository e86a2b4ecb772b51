use vstd::prelude::*;

verus! {

/// What can go wrong while one request is handled.
#[derive(Clone, Copy, Debug, PartialEq, Eq, Structural)]
pub enum PipelineError {
    /// The request body is not an image that the decoder understands.
    Decode,
    /// The inference graph or its session could not be built.
    EngineInit,
    /// The engine's output arrays break the `4N` / `N` length relation.
    MalformedEngineOutput,
    /// The engine failed while running on one input.
    EngineRuntime,
    /// The annotated image could not be encoded.
    Encode,
}

/// The HTTP status that a request failing with `e` is answered with.
pub open spec fn status_of(e: PipelineError) -> u16 {
    match e {
        PipelineError::Decode => 400,
        _ => 500,
    }
}

impl PipelineError {
    /// Client errors (an undecodable body) map to 400, everything else to 500.
    pub fn http_status(&self) -> (r: u16)
        ensures
            r == status_of(*self),
    {
        match self {
            PipelineError::Decode => 400,
            _ => 500,
        }
    }

    /// Whether the failure is the client's fault (a 4xx answer).
    pub fn is_client_error(&self) -> (r: bool)
        ensures
            r == (400 <= status_of(*self) < 500),
            r == (*self == PipelineError::Decode),
    {
        let s = self.http_status();
        400 <= s && s < 500
    }
}

} // verus!
