use vstd::prelude::*;

verus! {

/// The two request entry points.
#[derive(Clone, Copy, Debug, PartialEq, Eq, Structural)]
pub enum Endpoint {
    /// Answers with the detections.
    Bboxes,
    /// Answers with the image, detections outlined.
    Overlay,
}

/// Where one request stands.
#[derive(Clone, Copy, Debug, PartialEq, Eq, Structural)]
pub enum Stage {
    Received,
    Decoding,
    Detecting,
    Rendering,
    Encoding,
    Responded,
    Failed,
}

/// Position of a stage along the pipeline; the two final stages share the last.
pub open spec fn rank(s: Stage) -> int {
    match s {
        Stage::Received => 0,
        Stage::Decoding => 1,
        Stage::Detecting => 2,
        Stage::Rendering => 3,
        Stage::Encoding => 4,
        Stage::Responded => 5,
        Stage::Failed => 5,
    }
}

/// A request is finished once it has been answered or has failed.
pub open spec fn is_final(s: Stage) -> bool {
    s == Stage::Responded || s == Stage::Failed
}

/// The stage after `s` once its work is done: `ok` says whether that work
/// succeeded.
pub open spec fn successor(e: Endpoint, s: Stage, ok: bool) -> Stage {
    if is_final(s) {
        s
    } else if !ok {
        Stage::Failed
    } else {
        match s {
            Stage::Received => Stage::Decoding,
            Stage::Decoding => Stage::Detecting,
            Stage::Detecting => if e == Endpoint::Overlay {
                Stage::Rendering
            } else {
                Stage::Encoding
            },
            Stage::Rendering => Stage::Encoding,
            _ => Stage::Responded,
        }
    }
}

/// Steps a request: any failure ends in `Failed`; success moves on through
/// decoding, detection, rendering (overlay only) and encoding to `Responded`.
/// A finished request stays where it is.
pub fn next_stage(e: Endpoint, s: Stage, ok: bool) -> (r: Stage)
    ensures
        r == successor(e, s, ok),
{
    match s {
        Stage::Responded | Stage::Failed => s,
        _ => if !ok {
            Stage::Failed
        } else {
            match s {
                Stage::Received => Stage::Decoding,
                Stage::Decoding => Stage::Detecting,
                Stage::Detecting => match e {
                    Endpoint::Overlay => Stage::Rendering,
                    Endpoint::Bboxes => Stage::Encoding,
                },
                Stage::Rendering => Stage::Encoding,
                _ => Stage::Responded,
            }
        },
    }
}

/// No request goes back: every step from an unfinished stage moves strictly
/// forward, and only the overlay endpoint passes through `Rendering`.
pub proof fn stages_only_move_forward(e: Endpoint, s: Stage, ok: bool)
    ensures
        !is_final(s) ==> rank(successor(e, s, ok)) > rank(s),
        successor(e, s, ok) == Stage::Rendering ==> e == Endpoint::Overlay,
        is_final(s) ==> successor(e, s, ok) == s,
{
}

} // verus!
