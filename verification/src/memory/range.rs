//! An inclusive range of units, and what holds of every range: overlap is
//! symmetric and means a shared unit, consuming means holding every unit of
//! the other, a successful merge holds exactly the units of both, and the
//! size of a range is the number of units it holds.
use vstd::prelude::*;
use crate::memory::PAGE_SIZE;
use crate::memory::pager::index::PageIndex;
use crate::memory::traits::{
    Range,
    RangeError,
    Unit,
    hi,
    lo,
    range_adjacent,
    range_consumes,
    range_contains_index,
    range_is_empty,
    range_overlaps,
};

verus! {

/// The units from `start` up to and including `end`.
#[derive(Clone, Copy)]
pub struct UnitRange<B> {
    pub start: B,
    pub end: B,
}

impl<B: Unit> Range for UnitRange<B> {
    type Basic = B;

    open spec fn first(self) -> B {
        self.start
    }

    open spec fn last(self) -> B {
        self.end
    }

    fn new(start: B, end: B) -> (r: Self) {
        UnitRange { start, end }
    }

    fn empty() -> (r: Self) {
        UnitRange { start: B::at(PageIndex(1)), end: B::at(PageIndex(0)) }
    }

    fn start(self) -> (r: B) {
        self.start
    }

    fn end(self) -> (r: B) {
        self.end
    }

    fn as_page_size(self) -> (r: usize) {
        (self.end.index().0 - self.start.index().0) + 1
    }

    fn as_bytes(self) -> (r: usize) {
        let pages = self.as_page_size();
        pages * PAGE_SIZE
    }

    fn is_empty(self) -> (r: bool) {
        self.start.index().0 > self.end.index().0
    }

    fn start_addr(self) -> (r: B::Addr) {
        self.start.addr()
    }

    fn inclusive_addr(self) -> (r: B::Addr) {
        self.end.inclusive_addr()
    }

    fn merge(&mut self, other: Self) -> (r: Result<(), RangeError>) {
        if other.is_empty() {
            return Ok(());
        }
        let after_self = self.end.index().0 + 1;
        if other.start.index().0 != after_self {
            let after_other = other.end.index().0 + 1;
            if after_other != self.start.index().0 {
                return Err(RangeError::NotAdjacent);
            }
        }
        if other.start.index().0 < self.start.index().0 {
            self.start = other.start;
        }
        if other.end.index().0 > self.end.index().0 {
            self.end = other.end;
        }
        Ok(())
    }

    fn overlaps(self, other: Self) -> (r: bool) {
        if self.is_empty() || other.is_empty() {
            return false;
        }
        self.start.index().0 <= other.end.index().0 && other.start.index().0 <= self.end.index().0
    }

    fn consumes(self, other: Self) -> (r: bool) {
        if self.is_empty() || other.is_empty() {
            return false;
        }
        self.start.index().0 <= other.start.index().0 && self.end.index().0 >= other.end.index().0
    }

    fn contains(self, unit: B) -> (r: bool) {
        if self.is_empty() {
            return false;
        }
        self.start.index().0 <= unit.index().0 && self.end.index().0 >= unit.index().0
    }

    fn nth(self, n: usize) -> (r: Option<B>) {
        if self.is_empty() {
            return None;
        }
        let first = self.start.index().0;
        let last = self.end.index().0;
        if n <= last - first {
            Some(B::at(PageIndex(first + n)))
        } else {
            None
        }
    }
}

/// Overlap does not depend on the order of the two ranges.
pub proof fn lemma_overlaps_symmetric<R: Range>(a: R, b: R)
    ensures
        range_overlaps(a, b) == range_overlaps(b, a),
{
}

/// Two ranges overlap exactly when some unit lies in both.
pub proof fn lemma_overlaps_iff_shared_unit<R: Range>(a: R, b: R)
    ensures
        range_overlaps(a, b) <==> exists|i: int|
            range_contains_index(a, i) && range_contains_index(b, i),
{
    if range_overlaps(a, b) {
        let i = if lo(a) <= lo(b) { lo(b) } else { lo(a) };
        assert(range_contains_index(a, i) && range_contains_index(b, i));
    }
}

/// A non-empty range consumes a non-empty one exactly when it holds every
/// unit of it.
pub proof fn lemma_consumes_iff_holds_all<R: Range>(a: R, b: R)
    requires
        !range_is_empty(a),
        !range_is_empty(b),
    ensures
        range_consumes(a, b) <==> forall|i: int|
            range_contains_index(b, i) ==> range_contains_index(a, i),
{
    if forall|i: int| range_contains_index(b, i) ==> range_contains_index(a, i) {
        assert(range_contains_index(b, lo(b)));
        assert(range_contains_index(b, hi(b)));
    }
}

/// A consumed range overlaps the range that consumes it.
pub proof fn lemma_consumes_implies_overlaps<R: Range>(a: R, b: R)
    ensures
        range_consumes(a, b) ==> range_overlaps(a, b),
{
}

/// The range that a successful merge of `b` into `a` leaves, `c`, holds
/// exactly the units of `a` and of `b`: this is so when `b` is empty and
/// `c` is `a`, and when `b` is adjacent to `a` and `c` runs from the earlier
/// start to the later end.
pub proof fn lemma_merge_is_union<R: Range>(a: R, b: R, c: R)
    requires
        (range_is_empty(b) && c == a) || (!range_is_empty(b) && range_adjacent(a, b) && lo(c)
            == (if lo(b) < lo(a) {
            lo(b)
        } else {
            lo(a)
        }) && hi(c) == (if hi(b) > hi(a) {
            hi(b)
        } else {
            hi(a)
        })),
    ensures
        forall|i: int|
            range_contains_index(c, i) <==> range_contains_index(a, i) || range_contains_index(
                b,
                i,
            ),
{
}

/// Merging a non-empty adjacent range that does not overlap gives a range
/// whose size is the sum of the two sizes.
pub proof fn lemma_merge_adds_sizes<R: Range>(a: R, b: R, c: R)
    requires
        !range_is_empty(a),
        !range_is_empty(b),
        range_adjacent(a, b),
        lo(c) == (if lo(b) < lo(a) {
            lo(b)
        } else {
            lo(a)
        }),
        hi(c) == (if hi(b) > hi(a) {
            hi(b)
        } else {
            hi(a)
        }),
    ensures
        hi(c) - lo(c) + 1 == (hi(a) - lo(a) + 1) + (hi(b) - lo(b) + 1),
{
}

/// A non-empty range holds exactly `as_page_size` units: the set of page
/// indices it holds has that many members.
pub proof fn lemma_size_counts_units<R: Range>(r: R)
    requires
        !range_is_empty(r),
    ensures
        Set::new(|i: int| range_contains_index(r, i)).finite(),
        Set::new(|i: int| range_contains_index(r, i)).len() == hi(r) - lo(r) + 1,
{
    let s = Set::new(|i: int| range_contains_index(r, i));
    assert(s =~= vstd::set_lib::set_int_range(lo(r), hi(r) + 1));
    vstd::set_lib::lemma_int_range(lo(r), hi(r) + 1);
}

/// The empty range holds no unit and overlaps nothing.
pub proof fn lemma_empty_holds_nothing<R: Range>(e: R, other: R)
    requires
        lo(e) == 1,
        hi(e) == 0,
    ensures
        range_is_empty(e),
        forall|i: int| !range_contains_index(e, i),
        !range_overlaps(e, other),
        !range_consumes(other, e),
{
}

} // verus!
