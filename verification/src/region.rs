use vstd::prelude::*;

verus! {

/// The half-open byte range `[start, start + size)` that one identifier owns.
#[derive(Clone, Copy, Debug, PartialEq, Eq, Structural)]
pub struct Region {
    pub start: usize,
    pub size: usize,
}

impl Region {
    /// The first offset past the region.
    pub open spec fn end(self) -> int {
        self.start + self.size
    }

    /// Whether offset `i` lies inside the region.
    pub open spec fn covers(self, i: int) -> bool {
        self.start <= i < self.end()
    }

    /// Whether the two regions lie one after the other, sharing no offset.
    pub open spec fn apart_from(self, other: Region) -> bool {
        self.end() <= other.start || other.end() <= self.start
    }
}

} // verus!
