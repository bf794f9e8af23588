use vstd::prelude::*;

verus! {

/// A half-open interval `[start, end)` of offsets into a text.
#[derive(Clone, Copy, Debug, PartialEq, Eq, Structural)]
pub struct Range {
    pub start: usize,
    pub end: usize,
}

impl Range {
    pub fn new_with_usize(start: usize, end: usize) -> (r: Range)
        ensures
            r.start == start,
            r.end == end,
    {
        Range { start, end }
    }

    /// Whether the interval lies inside a text of `len` characters.
    pub open spec fn within(self, len: int) -> bool {
        0 <= self.start <= self.end <= len
    }
}

} // verus!
