//! The number of a page (or frame) counted from address 0 in steps of
//! `PAGE_SIZE`, and its conversions to and from addresses.
use vstd::prelude::*;
use crate::memory::PAGE_SIZE;
use crate::memory::addr::{PhysAddr, VirtAddr, phys_addr_valid, virt_addr_canonical};
use vstd::std_specs::ops::{AddSpec, SubSpec};

verus! {

/// The number of a page: the page covers the bytes from
/// `index * PAGE_SIZE` up to, not including, `(index + 1) * PAGE_SIZE`.
#[derive(Debug, Clone, Copy, PartialEq, Eq, Ord, Hash, Structural)]
pub struct PageIndex(pub usize);

impl PageIndex {
    pub fn new(idx: usize) -> (r: Self)
        ensures
            r.0 == idx,
    {
        Self(idx)
    }

    /// The index of the page that holds address `v` (its quotient by
    /// `PAGE_SIZE`, taken as a `usize`).
    pub open spec fn of_addr(v: u64) -> PageIndex {
        PageIndex((v as usize) / PAGE_SIZE)
    }

    /// The address of the page's first byte, as an integer.
    pub open spec fn base(self) -> int {
        self.0 * PAGE_SIZE
    }
}

/// The index of the page that holds a physical address.
impl From<PhysAddr> for PageIndex {
    fn from(value: PhysAddr) -> (r: Self) {
        Self(value.as_u64() as usize / PAGE_SIZE)
    }
}

impl vstd::std_specs::convert::FromSpecImpl<PhysAddr> for PageIndex {
    open spec fn obeys_from_spec() -> bool {
        true
    }

    open spec fn from_spec(v: PhysAddr) -> PageIndex {
        PageIndex::of_addr(v.value())
    }
}

/// The index of the page that holds a virtual address.
impl From<VirtAddr> for PageIndex {
    fn from(value: VirtAddr) -> (r: Self) {
        Self(value.as_u64() as usize / PAGE_SIZE)
    }
}

impl vstd::std_specs::convert::FromSpecImpl<VirtAddr> for PageIndex {
    open spec fn obeys_from_spec() -> bool {
        true
    }

    open spec fn from_spec(v: VirtAddr) -> PageIndex {
        PageIndex::of_addr(v.value())
    }
}

impl PhysAddr {
    /// The physical address of the first byte of page `value`. The product
    /// `value * PAGE_SIZE` must fit in a `usize` and be a valid physical address.
    pub fn from(value: PageIndex) -> (r: PhysAddr)
        requires
            value.base() <= usize::MAX,
            phys_addr_valid(value.base() as u64),
        ensures
            r.value() == value.base(),
    {
        PhysAddr::new((value.0 * PAGE_SIZE) as u64)
    }
}

impl VirtAddr {
    /// The virtual address of the first byte of page `value`. The product
    /// `value * PAGE_SIZE` must fit in a `usize` and be canonical.
    pub fn from(value: PageIndex) -> (r: VirtAddr)
        requires
            value.base() <= usize::MAX,
            virt_addr_canonical(value.base() as u64),
        ensures
            r.value() == value.base(),
    {
        VirtAddr::new((value.0 * PAGE_SIZE) as u64)
    }
}

/// The page index of the address of a page's first byte is that page: for
/// a physical address built from index `i`, converting it back gives `i`.
pub proof fn lemma_phys_index_round_trip(i: PageIndex, a: PhysAddr)
    requires
        a.value() == i.base(),
        i.base() <= usize::MAX,
    ensures
        PageIndex::of_addr(a.value()) == i,
{
    assert((i.0 * 4096) / 4096 == i.0) by (nonlinear_arith);
}

/// The same for a virtual address built from index `i`.
pub proof fn lemma_virt_index_round_trip(i: PageIndex, a: VirtAddr)
    requires
        a.value() == i.base(),
        i.base() <= usize::MAX,
    ensures
        PageIndex::of_addr(a.value()) == i,
{
    assert((i.0 * 4096) / 4096 == i.0) by (nonlinear_arith);
}

/// The page that holds a physical address starts at the address rounded
/// down to a multiple of `PAGE_SIZE`, and the address lies within it.
pub proof fn lemma_phys_page_holds_addr(a: PhysAddr)
    requires
        a.value() <= usize::MAX,
    ensures
        PageIndex::of_addr(a.value()).base() == a.value() - (a.value() as int) % 4096,
        PageIndex::of_addr(a.value()).base() <= a.value() < PageIndex::of_addr(a.value()).base() + PAGE_SIZE,
{
    let v = a.value() as int;
    assert((v / 4096) * 4096 == v - v % 4096) by (nonlinear_arith);
}

/// The page that holds a virtual address starts at the address rounded
/// down to a multiple of `PAGE_SIZE`, and the address lies within it.
pub proof fn lemma_virt_page_holds_addr(a: VirtAddr)
    requires
        a.value() <= usize::MAX,
    ensures
        PageIndex::of_addr(a.value()).base() == a.value() - (a.value() as int) % 4096,
        PageIndex::of_addr(a.value()).base() <= a.value() < PageIndex::of_addr(a.value()).base() + PAGE_SIZE,
{
    let v = a.value() as int;
    assert((v / 4096) * 4096 == v - v % 4096) by (nonlinear_arith);
}

/// The page `rhs` pages further on; the sum must fit in a `usize`.
impl core::ops::Add<usize> for PageIndex {
    type Output = Self;

    fn add(self, rhs: usize) -> (r: Self::Output) {
        Self(self.0 + rhs)
    }
}

impl vstd::std_specs::ops::AddSpecImpl<usize> for PageIndex {
    open spec fn obeys_add_spec() -> bool {
        true
    }

    open spec fn add_req(self, rhs: usize) -> bool {
        self.0 + rhs <= usize::MAX
    }

    open spec fn add_spec(self, rhs: usize) -> PageIndex {
        PageIndex((self.0 + rhs) as usize)
    }
}

/// The page `rhs` pages back; it must not go below page 0.
impl core::ops::Sub<usize> for PageIndex {
    type Output = Self;

    fn sub(self, rhs: usize) -> (r: Self::Output) {
        Self(self.0 - rhs)
    }
}

impl vstd::std_specs::ops::SubSpecImpl<usize> for PageIndex {
    open spec fn obeys_sub_spec() -> bool {
        true
    }

    open spec fn sub_req(self, rhs: usize) -> bool {
        self.0 >= rhs
    }

    open spec fn sub_spec(self, rhs: usize) -> PageIndex {
        PageIndex((self.0 - rhs) as usize)
    }
}

/// Moves the index `rhs` pages on; the sum must fit in a `usize`.
impl core::ops::AddAssign<usize> for PageIndex {
    fn add_assign(&mut self, rhs: usize)
        requires
            old(self).0 + rhs <= usize::MAX,
        ensures
            final(self).0 == old(self).0 + rhs,
    {
        self.0 += rhs;
    }
}

/// Moves the index `rhs` pages back; it must not go below page 0.
impl core::ops::SubAssign<usize> for PageIndex {
    fn sub_assign(&mut self, rhs: usize)
        requires
            old(self).0 >= rhs,
        ensures
            final(self).0 == old(self).0 - rhs,
    {
        self.0 -= rhs;
    }
}

/// The address of the first byte of the page that holds `a` is `a`
/// rounded down to a multiple of `PAGE_SIZE`: `b` is what `PhysAddr::from`
/// gives for the index that `PageIndex::from` gives for `a`.
pub proof fn lemma_phys_addr_rounds_down(a: PhysAddr, b: PhysAddr)
    requires
        a.value() <= usize::MAX,
        b.value() == PageIndex::of_addr(a.value()).base(),
    ensures
        b.value() == a.value() - (a.value() as int) % 4096,
{
    lemma_phys_page_holds_addr(a);
}

/// The same for virtual addresses.
pub proof fn lemma_virt_addr_rounds_down(a: VirtAddr, b: VirtAddr)
    requires
        a.value() <= usize::MAX,
        b.value() == PageIndex::of_addr(a.value()).base(),
    ensures
        b.value() == a.value() - (a.value() as int) % 4096,
{
    lemma_virt_page_holds_addr(a);
}

/// Stepping `n` pages on moves the index up by exactly `n`, stepping `n`
/// pages back moves it down by exactly `n`, and doing both returns to the
/// same page.
pub proof fn lemma_add_then_sub(i: PageIndex, n: usize)
    requires
        i.add_req(n),
    ensures
        i.add_spec(n).0 == i.0 + n,
        i.add_spec(n).sub_req(n),
        i.add_spec(n).sub_spec(n) == i,
        i.0 >= n ==> i.sub_req(n) && i.sub_spec(n).0 == i.0 - n,
{
}

} // verus!
