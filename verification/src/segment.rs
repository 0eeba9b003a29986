use vstd::prelude::*;

verus! {

/// One recognized contiguous span of speech: a start and end offset in
/// engine-defined time units (centiseconds) and the decoded text. A segment
/// is never mutated after creation.
#[derive(Debug)]
pub struct Segment {
    /// Start offset of the span, in engine time units.
    pub start_time: i64,
    /// End offset of the span, in engine time units.
    pub end_time: i64,
    /// The decoded text of the span; may be empty.
    pub text: String,
}

impl Segment {
    /// A segment is well formed when its span is non-negative and ordered:
    /// it starts at or after time zero and ends no earlier than it starts.
    pub open spec fn wf(&self) -> bool {
        0 <= self.start_time <= self.end_time
    }

    /// Builds a segment from an ordered, non-negative time span and its text.
    pub fn new(start_time: i64, end_time: i64, text: String) -> (s: Segment)
        requires
            0 <= start_time <= end_time,
        ensures
            s.start_time == start_time,
            s.end_time == end_time,
            s.text == text,
            s.wf(),
    {
        Segment { start_time, end_time, text }
    }
}

} // verus!
