//! What a page-sized unit of memory offers (`Unit`), and what an inclusive
//! range of such units offers (`Range`), with the meaning of each operation.
use vstd::prelude::*;
use crate::memory::PAGE_SIZE;
use crate::memory::pager::index::PageIndex;

verus! {

/// One page-sized unit of memory (a physical frame or a virtual page),
/// identified by its page index and placed at addresses of type `Addr`.
pub trait Unit: Sized + Copy {
    type Addr;

    /// The page index of the unit.
    spec fn page_index(self) -> PageIndex;

    /// The number that an address of this kind holds.
    spec fn addr_value(addr: Self::Addr) -> u64;

    /// Whether a number can be an address of this kind.
    spec fn addr_valid(value: u64) -> bool;

    /// The unit that holds `addr`.
    fn new(addr: Self::Addr) -> (r: Self)
        ensures
            r.page_index().0 == (Self::addr_value(addr) as usize) / PAGE_SIZE,
    ;

    /// The unit with page index `index`.
    fn at(index: PageIndex) -> (r: Self)
        ensures
            r.page_index() == index,
    ;

    /// The address of the unit's first byte; the address must be representable.
    fn addr(self) -> (r: Self::Addr)
        requires
            self.page_index().base() <= usize::MAX,
            Self::addr_valid(self.page_index().base() as u64),
        ensures
            Self::addr_value(r) == self.page_index().base(),
    ;

    /// The address that the unit's page index converts to: its first byte.
    fn inclusive_addr(self) -> (r: Self::Addr)
        requires
            self.page_index().base() <= usize::MAX,
            Self::addr_valid(self.page_index().base() as u64),
        ensures
            Self::addr_value(r) == self.page_index().base(),
    ;

    /// The page index of the unit.
    fn index(self) -> (r: PageIndex)
        ensures
            r == self.page_index(),
    ;
}

/// The unit that holds the address of a unit's first byte is that unit
/// again (by page index): `v` is what `new` gives for `a`, and `a` is what
/// `addr` gives for `u`.
pub proof fn lemma_unit_addr_round_trip<U: Unit>(u: U, a: U::Addr, v: U)
    requires
        u.page_index().base() <= usize::MAX,
        U::addr_value(a) == u.page_index().base(),
        v.page_index().0 == (U::addr_value(a) as usize) / PAGE_SIZE,
    ensures
        v.page_index() == u.page_index(),
{
    let i = u.page_index().0;
    assert((i * 4096) / 4096 == i) by (nonlinear_arith);
}

/// The address of the first byte of the unit that holds an address is that
/// address rounded down to a multiple of `PAGE_SIZE`: `v` is what `new`
/// gives for `a`, and `b` is what `addr` gives for `v`.
pub proof fn lemma_unit_addr_rounds_down<U: Unit>(a: U::Addr, v: U, b: U::Addr)
    requires
        U::addr_value(a) <= usize::MAX,
        v.page_index().0 == (U::addr_value(a) as usize) / PAGE_SIZE,
        U::addr_value(b) == v.page_index().base(),
    ensures
        U::addr_value(b) == U::addr_value(a) - (U::addr_value(a) as int) % 4096,
{
    let x = U::addr_value(a) as int;
    assert((x / 4096) * 4096 == x - x % 4096) by (nonlinear_arith);
}

/// Why two ranges could not be merged.
#[derive(Debug, Clone, Copy, PartialEq, Eq, Structural)]
pub enum RangeError {
    /// Neither range starts right after the other ends.
    NotAdjacent,
}

impl RangeError {
    /// The message that describes the error.
    pub fn message(&self) -> (r: &'static str)
        ensures
            r@ == "Error merging pages"@,
    {
        "Error merging pages"
    }
}

/// The page index of the first unit of `r`.
pub open spec fn lo<R: Range>(r: R) -> int {
    r.first().page_index().0 as int
}

/// The page index of the last unit of `r`.
pub open spec fn hi<R: Range>(r: R) -> int {
    r.last().page_index().0 as int
}

/// A range is empty when its start lies after its end.
pub open spec fn range_is_empty<R: Range>(r: R) -> bool {
    lo(r) > hi(r)
}

/// Whether the unit with page index `i` lies in `r`.
pub open spec fn range_contains_index<R: Range>(r: R, i: int) -> bool {
    !range_is_empty(r) && lo(r) <= i <= hi(r)
}

/// Two non-empty ranges overlap when each starts no later than the other ends.
pub open spec fn range_overlaps<R: Range>(a: R, b: R) -> bool {
    !range_is_empty(a) && !range_is_empty(b) && lo(a) <= hi(b) && lo(b) <= hi(a)
}

/// A non-empty range consumes another non-empty one when it starts no later
/// and ends no earlier.
pub open spec fn range_consumes<R: Range>(a: R, b: R) -> bool {
    !range_is_empty(a) && !range_is_empty(b) && lo(a) <= lo(b) && hi(a) >= hi(b)
}

/// `b` starts right after `a` ends, or ends right before `a` starts.
pub open spec fn range_adjacent<R: Range>(a: R, b: R) -> bool {
    lo(b) == hi(a) + 1 || hi(b) + 1 == lo(a)
}

/// An inclusive range of units: from `start` up to and including `end`.
pub trait Range: Sized + Copy {
    type Basic: Unit;

    /// The first unit of the range.
    spec fn first(self) -> Self::Basic;

    /// The last unit of the range.
    spec fn last(self) -> Self::Basic;

    /// The range from `start` to `end`, both included.
    fn new(start: Self::Basic, end: Self::Basic) -> (r: Self)
        ensures
            r.first() == start,
            r.last() == end,
    ;

    /// The range from page 1 to page 0, which holds nothing.
    fn empty() -> (r: Self)
        ensures
            r.first().page_index().0 == 1,
            r.last().page_index().0 == 0,
    ;

    /// The first unit.
    fn start(self) -> (r: Self::Basic)
        ensures
            r == self.first(),
    ;

    /// The last unit.
    fn end(self) -> (r: Self::Basic)
        ensures
            r == self.last(),
    ;

    /// The number of units in a non-empty range.
    fn as_page_size(self) -> (r: usize)
        requires
            self.first().page_index().0 <= self.last().page_index().0,
            self.last().page_index().0 - self.first().page_index().0 < usize::MAX,
        ensures
            r == self.last().page_index().0 - self.first().page_index().0 + 1,
    ;

    /// The number of bytes in a non-empty range.
    fn as_bytes(self) -> (r: usize)
        requires
            self.first().page_index().0 <= self.last().page_index().0,
            (self.last().page_index().0 - self.first().page_index().0 + 1) * PAGE_SIZE <= usize::MAX,
        ensures
            r == (self.last().page_index().0 - self.first().page_index().0 + 1) * PAGE_SIZE,
    ;

    /// Whether the range holds no unit: its start lies after its end.
    fn is_empty(self) -> (r: bool)
        ensures
            r == (self.first().page_index().0 > self.last().page_index().0),
    ;

    /// The address of the first byte of the first unit.
    fn start_addr(self) -> (r: <Self::Basic as Unit>::Addr)
        requires
            self.first().page_index().base() <= usize::MAX,
            Self::Basic::addr_valid(self.first().page_index().base() as u64),
        ensures
            Self::Basic::addr_value(r) == self.first().page_index().base(),
    ;

    /// The address that the last unit's index converts to: its first byte.
    fn inclusive_addr(self) -> (r: <Self::Basic as Unit>::Addr)
        requires
            self.last().page_index().base() <= usize::MAX,
            Self::Basic::addr_valid(self.last().page_index().base() as u64),
        ensures
            Self::Basic::addr_value(r) == self.last().page_index().base(),
    ;

    /// Extends the range by `other` when they are adjacent. An empty `other`
    /// changes nothing; a non-empty one that is not adjacent is refused and
    /// changes nothing; otherwise the range starts at the earlier start and
    /// ends at the later end.
    fn merge(&mut self, other: Self) -> (r: Result<(), RangeError>)
        requires
            other.first().page_index().0 <= other.last().page_index().0 ==> (
            old(self).last().page_index().0 < usize::MAX && (other.first().page_index().0
                == old(self).last().page_index().0 + 1 || other.last().page_index().0
                < usize::MAX)),
        ensures
            ({
                let a_lo = old(self).first().page_index().0;
                let a_hi = old(self).last().page_index().0;
                let b_lo = other.first().page_index().0;
                let b_hi = other.last().page_index().0;
                let adjacent = b_lo == a_hi + 1 || b_hi + 1 == a_lo;
                &&& b_lo > b_hi ==> r is Ok && *final(self) == *old(self)
                &&& b_lo <= b_hi && !adjacent ==> r == Err::<(), RangeError>(
                    RangeError::NotAdjacent,
                ) && *final(self) == *old(self)
                &&& b_lo <= b_hi && adjacent ==> {
                    &&& r is Ok
                    &&& final(self).first() == if b_lo < a_lo {
                        other.first()
                    } else {
                        old(self).first()
                    }
                    &&& final(self).last() == if b_hi > a_hi {
                        other.last()
                    } else {
                        old(self).last()
                    }
                }
            }),
    ;

    /// Whether both ranges are non-empty and each starts no later than the
    /// other ends.
    fn overlaps(self, other: Self) -> (r: bool)
        ensures
            r == (self.first().page_index().0 <= self.last().page_index().0 && other.first().page_index().0 <= other.last().page_index().0
                && self.first().page_index().0 <= other.last().page_index().0 && other.first().page_index().0 <= self.last().page_index().0),
    ;

    /// Whether both ranges are non-empty and this one starts no later and
    /// ends no earlier than `other`.
    fn consumes(self, other: Self) -> (r: bool)
        ensures
            r == (self.first().page_index().0 <= self.last().page_index().0 && other.first().page_index().0 <= other.last().page_index().0
                && self.first().page_index().0 <= other.first().page_index().0 && self.last().page_index().0 >= other.last().page_index().0),
    ;

    /// Whether the range is non-empty and `unit` lies between its start
    /// and its end.
    fn contains(self, unit: Self::Basic) -> (r: bool)
        ensures
            r == (self.first().page_index().0 <= self.last().page_index().0 && self.first().page_index().0 <= unit.page_index().0 <= self.last().page_index().0),
    ;

    /// The unit `n` places after the start, if the range reaches that far.
    fn nth(self, n: usize) -> (r: Option<Self::Basic>)
        ensures
            r is Some <==> (self.first().page_index().0 <= self.last().page_index().0 && self.first().page_index().0 + n <= self.last().page_index().0),
            r matches Some(u) ==> u.page_index().0 == self.first().page_index().0 + n,
    ;
}

} // verus!
