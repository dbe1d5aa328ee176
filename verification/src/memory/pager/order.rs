//! The order of page indices, frames and pages: by page index.
use vstd::prelude::*;
use core::cmp::Ordering;
use vstd::std_specs::cmp::PartialOrdSpec;
use vstd::std_specs::ops::AddSpec;
use crate::memory::pager::index::PageIndex;
use crate::memory::pager::paging::{Frame, Page};

verus! {

/// How two numbers compare.
pub open spec fn order_of(a: usize, b: usize) -> Option<Ordering> {
    if a < b {
        Some(Ordering::Less)
    } else if a > b {
        Some(Ordering::Greater)
    } else {
        Some(Ordering::Equal)
    }
}

fn compare(a: usize, b: usize) -> (r: Option<Ordering>)
    ensures
        r == order_of(a, b),
{
    if a < b {
        Some(Ordering::Less)
    } else if a > b {
        Some(Ordering::Greater)
    } else {
        Some(Ordering::Equal)
    }
}

/// Page indices compare as the numbers they hold.
impl PartialOrd for PageIndex {
    fn partial_cmp(&self, other: &Self) -> (r: Option<Ordering>) {
        compare(self.0, other.0)
    }
}

impl vstd::std_specs::cmp::PartialOrdSpecImpl for PageIndex {
    open spec fn obeys_partial_cmp_spec() -> bool {
        true
    }

    open spec fn partial_cmp_spec(&self, other: &Self) -> Option<Ordering> {
        order_of(self.0, other.0)
    }
}

/// Frames compare by page index.
impl PartialOrd for Frame {
    fn partial_cmp(&self, other: &Self) -> (r: Option<Ordering>) {
        compare(self.index.0, other.index.0)
    }
}

impl vstd::std_specs::cmp::PartialOrdSpecImpl for Frame {
    open spec fn obeys_partial_cmp_spec() -> bool {
        true
    }

    open spec fn partial_cmp_spec(&self, other: &Self) -> Option<Ordering> {
        order_of(self.index.0, other.index.0)
    }
}

/// Pages compare by page index.
impl PartialOrd for Page {
    fn partial_cmp(&self, other: &Self) -> (r: Option<Ordering>) {
        compare(self.index.0, other.index.0)
    }
}

impl vstd::std_specs::cmp::PartialOrdSpecImpl for Page {
    open spec fn obeys_partial_cmp_spec() -> bool {
        true
    }

    open spec fn partial_cmp_spec(&self, other: &Self) -> Option<Ordering> {
        order_of(self.index.0, other.index.0)
    }
}

/// `PageIndex::new(i) <= PageIndex::new(j)` exactly when `i <= j`, and
/// likewise for `<`.
pub proof fn lemma_index_order(i: usize, j: usize)
    ensures
        PageIndex(i).partial_cmp_spec(&PageIndex(j)) matches Some(Ordering::Less | Ordering::Equal)
            <==> i <= j,
        PageIndex(i).partial_cmp_spec(&PageIndex(j)) == Some(Ordering::Less) <==> i < j,
{
}

/// Frames and pages compare as their page indices do.
pub proof fn lemma_unit_order(f: Frame, g: Frame, p: Page, q: Page)
    ensures
        f.partial_cmp_spec(&g) matches Some(Ordering::Less | Ordering::Equal) <==> f.index.0
            <= g.index.0,
        f.partial_cmp_spec(&g) == Some(Ordering::Less) <==> f.index.0 < g.index.0,
        p.partial_cmp_spec(&q) matches Some(Ordering::Less | Ordering::Equal) <==> p.index.0
            <= q.index.0,
        p.partial_cmp_spec(&q) == Some(Ordering::Less) <==> p.index.0 < q.index.0,
{
}

/// Stepping forward never moves to an earlier page: `p + n >= p`.
pub proof fn lemma_add_not_below(p: PageIndex, n: usize)
    requires
        p.0 + n <= usize::MAX,
    ensures
        p.add_spec(n).partial_cmp_spec(&p) matches Some(Ordering::Greater | Ordering::Equal),
{
}

} // verus!
