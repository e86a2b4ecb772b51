use vstd::prelude::*;

use crate::error::PipelineError;

verus! {

/// One detection: a rectangle in source-image pixel space and its score.
///
/// The sample type is left open: the engine reports single-precision values,
/// and nothing here depends on what a sample is.
#[derive(Clone, Copy, Debug)]
pub struct BBox<T> {
    pub x1: T,
    pub y1: T,
    pub x2: T,
    pub y2: T,
    pub prob: T,
}

/// The engine's output is well shaped: four box values per score.
pub open spec fn well_shaped(n_boxes: int, n_scores: int) -> bool {
    n_boxes % 4 == 0 && n_boxes / 4 == n_scores
}

/// Detection `i`: the engine writes each box as `(y1, x1, y2, x2)`.
pub open spec fn detection_at<T>(boxes: Seq<T>, scores: Seq<T>, i: int) -> BBox<T> {
    BBox {
        x1: boxes[4 * i + 1],
        y1: boxes[4 * i],
        x2: boxes[4 * i + 3],
        y2: boxes[4 * i + 2],
        prob: scores[i],
    }
}

/// All detections of a well-shaped output, in the engine's order.
pub open spec fn detections<T>(boxes: Seq<T>, scores: Seq<T>) -> Seq<BBox<T>> {
    Seq::new(scores.len(), |i: int| detection_at(boxes, scores, i))
}

/// Parses the engine's flat `boxes` (four values per detection, in the order
/// `y1, x1, y2, x2`) and `scores` (one per detection) into boxes, first
/// detection first.
pub fn from_engine_output<T: Copy>(boxes: &Vec<T>, scores: &Vec<T>) -> (r: Result<
    Vec<BBox<T>>,
    PipelineError,
>)
    ensures
        r is Ok <==> well_shaped(boxes@.len() as int, scores@.len() as int),
        r is Err ==> r == Err::<Vec<BBox<T>>, PipelineError>(PipelineError::MalformedEngineOutput),
        r matches Ok(v) ==> v@.len() == scores@.len() && v@ == detections(boxes@, scores@),
{
    if boxes.len() % 4 != 0 || boxes.len() / 4 != scores.len() {
        return Err(PipelineError::MalformedEngineOutput);
    }
    let n: usize = scores.len();
    let nb: usize = boxes.len();
    let mut out: Vec<BBox<T>> = Vec::with_capacity(n);
    let mut i: usize = 0;
    while i < n
        invariant
            n == scores@.len(),
            boxes@.len() == 4 * n,
            nb == boxes@.len(),
            i <= n,
            out@ == detections(boxes@, scores@).take(i as int),
        decreases n - i,
    {
        assert(4 * i + 3 < 4 * n) by (nonlinear_arith)
            requires
                i < n,
        ;
        let k: usize = 4 * i;
        let b = BBox {
            x1: boxes[k + 1],
            y1: boxes[k],
            x2: boxes[k + 3],
            y2: boxes[k + 2],
            prob: scores[i],
        };
        out.push(b);
        i = i + 1;
        assert(out@ =~= detections(boxes@, scores@).take(i as int));
    }
    assert(out@ =~= detections(boxes@, scores@));
    Ok(out)
}

} // verus!
