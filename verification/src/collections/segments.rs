//! Listing the segments of a database.
use vstd::prelude::*;

use crate::types::segment::{is_segment_snapshot, snapshot_from_segment, JsSegment, SegmentInfo};

verus! {

/// The segments of the library's list, converted in order.
pub struct SegmentsCollection;

impl SegmentsCollection {
    /// All segments, in the library's order.
    pub fn list(segments: &Vec<SegmentInfo>) -> (r: Vec<JsSegment>)
        requires
            forall|i: int| 0 <= i < segments@.len() ==> #[trigger] segments@[i].bitness < 32,
        ensures
            r@.len() == segments@.len(),
            forall|i: int|
                0 <= i < segments@.len() ==> is_segment_snapshot(#[trigger] r@[i], segments@[i]),
    {
        let mut out: Vec<JsSegment> = Vec::new();
        let mut i: usize = 0;
        while i < segments.len()
            invariant
                i <= segments@.len(),
                out@.len() == i,
                forall|k: int| 0 <= k < segments@.len() ==> #[trigger] segments@[k].bitness < 32,
                forall|k: int| 0 <= k < i ==> is_segment_snapshot(#[trigger] out@[k], segments@[k]),
            decreases segments@.len() - i,
        {
            out.push(snapshot_from_segment(&segments[i]));
            i += 1;
        }
        out
    }
}

} // verus!
