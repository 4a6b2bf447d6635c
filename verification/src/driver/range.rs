//! Index ranges and their resolution against the valid indices of a region.

use vstd::prelude::*;

verus! {

/// One end of an index range.
#[derive(Clone, Copy, Debug, PartialEq, Eq, Structural)]
pub enum RangeBound {
    /// The index itself belongs to the range.
    Included(usize),
    /// The index is the first one beyond the range (or the last one before it).
    Excluded(usize),
    /// The range has no limit at this end.
    Unbounded,
}

impl RangeBound {
    /// The least index that a range starting with this bound admits.
    pub open spec fn lowest(self) -> int {
        match self {
            RangeBound::Included(n) => n as int,
            RangeBound::Excluded(n) => n + 1,
            RangeBound::Unbounded => 0,
        }
    }

    /// The greatest index that a range ending with this bound admits.
    pub open spec fn highest(self) -> int {
        match self {
            RangeBound::Included(n) => n as int,
            RangeBound::Excluded(n) => n - 1,
            RangeBound::Unbounded => usize::MAX as int,
        }
    }
}

/// A range of indices, in any of the forms `a..b`, `a..=b`, `a..`, `..b`,
/// `..=b` and `..`.
#[derive(Clone, Copy, Debug, PartialEq, Eq, Structural)]
pub struct IndexRange {
    pub start: RangeBound,
    pub end: RangeBound,
}

impl IndexRange {
    /// Whether index `n` lies in the range.
    pub open spec fn admits(self, n: int) -> bool {
        self.start.lowest() <= n <= self.end.highest()
    }

    /// The first index of `self` when it is laid over `valid`: the start of
    /// `self` where it names one that `valid` admits, the start of `valid`
    /// where `self` is open at the left.
    pub open spec fn first_in(self, valid: IndexRange) -> Option<usize> {
        let lo = if self.start is Unbounded {
            valid.start.lowest()
        } else {
            self.start.lowest()
        };
        if lo <= usize::MAX && (self.start is Unbounded || valid.admits(lo)) {
            Some(lo as usize)
        } else {
            None
        }
    }

    /// The last index of `self` when it is laid over `valid`: the end of
    /// `self` where it names one that `valid` admits, the end of `valid`
    /// where `self` is open at the right.
    pub open spec fn last_in(self, valid: IndexRange) -> Option<usize> {
        let hi = if self.end is Unbounded {
            valid.end.highest()
        } else {
            self.end.highest()
        };
        if 0 <= hi && (self.end is Unbounded || valid.admits(hi)) {
            Some(hi as usize)
        } else {
            None
        }
    }

    /// The inclusive pair of indices that `self` denotes within `valid`, if
    /// both ends resolve and the range is not empty.
    pub open spec fn resolve(self, valid: IndexRange) -> Option<(usize, usize)> {
        match (self.first_in(valid), self.last_in(valid)) {
            (Some(s), Some(e)) => if s <= e {
                Some((s, e))
            } else {
                None
            },
            _ => None,
        }
    }

    /// The range `start..end`.
    pub fn new(start: usize, end: usize) -> (r: IndexRange)
        ensures
            r.start == RangeBound::Included(start),
            r.end == RangeBound::Excluded(end),
    {
        IndexRange { start: RangeBound::Included(start), end: RangeBound::Excluded(end) }
    }

    /// The range `start..=end`.
    pub fn inclusive(start: usize, end: usize) -> (r: IndexRange)
        ensures
            r.start == RangeBound::Included(start),
            r.end == RangeBound::Included(end),
    {
        IndexRange { start: RangeBound::Included(start), end: RangeBound::Included(end) }
    }

    /// The range `start..`.
    pub fn starting_at(start: usize) -> (r: IndexRange)
        ensures
            r.start == RangeBound::Included(start),
            r.end == RangeBound::Unbounded,
    {
        IndexRange { start: RangeBound::Included(start), end: RangeBound::Unbounded }
    }

    /// The range `..end`.
    pub fn to(end: usize) -> (r: IndexRange)
        ensures
            r.start == RangeBound::Unbounded,
            r.end == RangeBound::Excluded(end),
    {
        IndexRange { start: RangeBound::Unbounded, end: RangeBound::Excluded(end) }
    }

    /// The range `..=end`.
    pub fn to_inclusive(end: usize) -> (r: IndexRange)
        ensures
            r.start == RangeBound::Unbounded,
            r.end == RangeBound::Included(end),
    {
        IndexRange { start: RangeBound::Unbounded, end: RangeBound::Included(end) }
    }

    /// The range `..`.
    pub fn full() -> (r: IndexRange)
        ensures
            r.start == RangeBound::Unbounded,
            r.end == RangeBound::Unbounded,
    {
        IndexRange { start: RangeBound::Unbounded, end: RangeBound::Unbounded }
    }

    /// Whether index `n` lies in the range.
    pub fn contains(&self, n: usize) -> (r: bool)
        ensures
            r == self.admits(n as int),
    {
        let above: bool = match self.start {
            RangeBound::Included(s) => s <= n,
            RangeBound::Excluded(s) => s < n,
            RangeBound::Unbounded => true,
        };
        let below: bool = match self.end {
            RangeBound::Included(e) => n <= e,
            RangeBound::Excluded(e) => n < e,
            RangeBound::Unbounded => true,
        };
        above && below
    }

    /// The first index of `self` within `valid`, or `None` where the start
    /// that `self` names is not an index of `valid`.
    pub fn inclusive_start(&self, valid: &IndexRange) -> (r: Option<usize>)
        ensures
            r == self.first_in(*valid),
    {
        match self.start {
            RangeBound::Included(n) => if valid.contains(n) {
                Some(n)
            } else {
                None
            },
            RangeBound::Excluded(n) => if n < usize::MAX && valid.contains(n + 1) {
                Some(n + 1)
            } else {
                None
            },
            RangeBound::Unbounded => match valid.start {
                RangeBound::Included(n) => Some(n),
                RangeBound::Excluded(n) => if n < usize::MAX {
                    Some(n + 1)
                } else {
                    None
                },
                RangeBound::Unbounded => Some(0),
            },
        }
    }

    /// The last index of `self` within `valid`, or `None` where the end that
    /// `self` names is not an index of `valid`.
    pub fn inclusive_end(&self, valid: &IndexRange) -> (r: Option<usize>)
        ensures
            r == self.last_in(*valid),
    {
        match self.end {
            RangeBound::Included(n) => if valid.contains(n) {
                Some(n)
            } else {
                None
            },
            RangeBound::Excluded(n) => if n > 0 && valid.contains(n - 1) {
                Some(n - 1)
            } else {
                None
            },
            RangeBound::Unbounded => match valid.end {
                RangeBound::Included(n) => Some(n),
                RangeBound::Excluded(n) => if n > 0 {
                    Some(n - 1)
                } else {
                    None
                },
                RangeBound::Unbounded => Some(usize::MAX),
            },
        }
    }

    /// Resolves `self` against `valid` into an inclusive pair `(first, last)`.
    ///
    /// The result is `None` where either end of `self` falls outside `valid`
    /// or where the resolved range would be empty.
    pub fn bounds(&self, valid: IndexRange) -> (r: Option<(usize, usize)>)
        ensures
            r == self.resolve(valid),
            r matches Some((s, e)) ==> s <= e,
    {
        match self.inclusive_start(&valid) {
            Some(s) => match self.inclusive_end(&valid) {
                Some(e) => if s <= e {
                    Some((s, e))
                } else {
                    None
                },
                None => None,
            },
            None => None,
        }
    }
}

} // verus!
