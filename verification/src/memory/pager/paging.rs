//! Physical frames and virtual pages: units of memory named by their page
//! index, placed at physical and at virtual addresses respectively.
use vstd::prelude::*;
use crate::memory::PAGE_SIZE;
use crate::memory::addr::{PhysAddr, VirtAddr, phys_addr_valid, virt_addr_canonical};
use crate::memory::pager::index::PageIndex;
use crate::memory::traits::{Unit, lemma_unit_addr_round_trip};
use vstd::std_specs::ops::{AddSpec, SubSpec};

verus! {

/// A frame of physical memory.
#[derive(Clone, Copy, PartialEq, Eq, Ord, Hash, Structural)]
pub struct Frame {
    pub index: PageIndex,
}

/// A page of virtual memory.
#[derive(Clone, Copy, PartialEq, Eq, Ord, Hash, Structural)]
pub struct Page {
    pub index: PageIndex,
}

impl Unit for Frame {
    type Addr = PhysAddr;

    open spec fn page_index(self) -> PageIndex {
        self.index
    }

    open spec fn addr_value(addr: PhysAddr) -> u64 {
        addr.value()
    }

    open spec fn addr_valid(value: u64) -> bool {
        phys_addr_valid(value)
    }

    fn new(addr: PhysAddr) -> (r: Self) {
        Self { index: PageIndex::from(addr) }
    }

    fn at(index: PageIndex) -> (r: Self) {
        Self { index }
    }

    fn addr(self) -> (r: PhysAddr) {
        PhysAddr::new((self.index.0 * PAGE_SIZE) as u64)
    }

    fn inclusive_addr(self) -> (r: PhysAddr) {
        PhysAddr::from(self.index)
    }

    fn index(self) -> (r: PageIndex) {
        self.index
    }
}

impl Unit for Page {
    type Addr = VirtAddr;

    open spec fn page_index(self) -> PageIndex {
        self.index
    }

    open spec fn addr_value(addr: VirtAddr) -> u64 {
        addr.value()
    }

    open spec fn addr_valid(value: u64) -> bool {
        virt_addr_canonical(value)
    }

    fn new(addr: VirtAddr) -> (r: Self) {
        Self { index: PageIndex::from(addr) }
    }

    fn at(index: PageIndex) -> (r: Self) {
        Self { index }
    }

    fn addr(self) -> (r: VirtAddr) {
        VirtAddr::new((self.index.0 * PAGE_SIZE) as u64)
    }

    fn inclusive_addr(self) -> (r: VirtAddr) {
        VirtAddr::from(self.index)
    }

    fn index(self) -> (r: PageIndex) {
        self.index
    }
}

/// The lower-case hexadecimal digit for `d` (from 0 to 15).
pub open spec fn hex_digit(d: int) -> char {
    seq!['0', '1', '2', '3', '4', '5', '6', '7', '8', '9', 'a', 'b', 'c', 'd', 'e', 'f'][d]
}

/// `v` in lower-case hexadecimal, without leading zeros (`0` for zero).
pub open spec fn lower_hex(v: nat) -> Seq<char>
    decreases v,
{
    if v < 16 {
        seq![hex_digit(v as int)]
    } else {
        lower_hex(v / 16).push(hex_digit((v % 16) as int))
    }
}

/// The one-character string of hexadecimal digit `d`.
fn hex_digit_str(d: u64) -> (r: &'static str)
    requires
        d < 16,
    ensures
        r@ == seq![hex_digit(d as int)],
{
    let digits = "0123456789abcdef";
    proof {
        reveal_strlit("0123456789abcdef");
    }
    let r = digits.substring_ascii(d as usize, d as usize + 1);
    assert(r@ =~= seq![hex_digit(d as int)]);
    r
}

/// Appends `v` in lower-case hexadecimal to `s`.
fn append_hex(s: &mut String, v: u64)
    ensures
        final(s)@ == old(s)@ + lower_hex(v as nat),
    decreases v,
{
    if v >= 16 {
        append_hex(s, v / 16);
    }
    s.append(hex_digit_str(v % 16));
    assert(final(s)@ =~= old(s)@ + lower_hex(v as nat));
}

/// `name<addr>`: the name of a unit's kind, then the address of its first
/// byte in lower-case hexadecimal between angle brackets.
pub open spec fn unit_text(name: Seq<char>, addr: u64) -> Seq<char> {
    name + "<"@ + lower_hex(addr as nat) + ">"@
}

impl Frame {
    /// `Frame<addr>`, the address of the frame's first byte in hexadecimal;
    /// the address must be a valid physical address.
    pub fn to_debug_string(self) -> (r: String)
        requires
            self.page_index().base() <= usize::MAX,
            phys_addr_valid(self.page_index().base() as u64),
        ensures
            r@ == unit_text("Frame"@, self.page_index().base() as u64),
    {
        let mut s = String::new();
        s.append("Frame");
        s.append("<");
        append_hex(&mut s, self.addr().as_u64());
        s.append(">");
        s
    }
}

impl Page {
    /// `Page<addr>`, the address of the page's first byte in hexadecimal;
    /// the address must be canonical.
    pub fn to_debug_string(self) -> (r: String)
        requires
            self.page_index().base() <= usize::MAX,
            virt_addr_canonical(self.page_index().base() as u64),
        ensures
            r@ == unit_text("Page"@, self.page_index().base() as u64),
    {
        let mut s = String::new();
        s.append("Page");
        s.append("<");
        append_hex(&mut s, self.addr().as_u64());
        s.append(">");
        s
    }
}

/// The frame that holds the address of a frame's first byte is that frame:
/// `a` is what `addr` gives for `f`, and `g` is what `new` gives for `a`.
pub proof fn lemma_frame_addr_round_trip(f: Frame, a: PhysAddr, g: Frame)
    requires
        f.page_index().base() <= usize::MAX,
        a.value() == f.page_index().base(),
        g.page_index().0 == (a.value() as usize) / PAGE_SIZE,
    ensures
        g == f,
{
    lemma_unit_addr_round_trip(f, a, g);
}

/// The page that holds the address of a page's first byte is that page:
/// `a` is what `addr` gives for `p`, and `q` is what `new` gives for `a`.
pub proof fn lemma_page_addr_round_trip(p: Page, a: VirtAddr, q: Page)
    requires
        p.page_index().base() <= usize::MAX,
        a.value() == p.page_index().base(),
        q.page_index().0 == (a.value() as usize) / PAGE_SIZE,
    ensures
        q == p,
{
    lemma_unit_addr_round_trip(p, a, q);
}

/// Stepping a frame `n` frames on moves its index up by exactly `n`, and
/// stepping back `n` returns to the same frame.
pub proof fn lemma_frame_steps(f: Frame, n: usize)
    requires
        f.page_index().0 + n <= usize::MAX,
    ensures
        f.add_req(n),
        f.add_spec(n).page_index().0 == f.page_index().0 + n,
        f.add_spec(n).sub_req(n),
        f.add_spec(n).sub_spec(n) == f,
        f.page_index().0 >= n ==> f.sub_req(n) && f.sub_spec(n).page_index().0 == f.page_index().0 - n,
{
}

/// Stepping a page `n` pages on moves its index up by exactly `n`, and
/// stepping back `n` returns to the same page.
pub proof fn lemma_page_steps(p: Page, n: usize)
    requires
        p.page_index().0 + n <= usize::MAX,
    ensures
        p.add_req(n),
        p.add_spec(n).page_index().0 == p.page_index().0 + n,
        p.add_spec(n).sub_req(n),
        p.add_spec(n).sub_spec(n) == p,
        p.page_index().0 >= n ==> p.sub_req(n) && p.sub_spec(n).page_index().0 == p.page_index().0 - n,
{
}

/// The digit value of a lower-case hexadecimal digit character.
pub open spec fn hex_digit_value(c: char) -> int {
    if '0' <= c && c <= '9' {
        c as int - '0' as int
    } else {
        c as int - 'a' as int + 10
    }
}

/// Whether `c` is one of `0`-`9`, `a`-`f`.
pub open spec fn is_lower_hex_digit(c: char) -> bool {
    ('0' <= c && c <= '9') || ('a' <= c && c <= 'f')
}

/// The number that a string of hexadecimal digits denotes.
pub open spec fn hex_number(s: Seq<char>) -> int
    decreases s.len(),
{
    if s.len() == 0 {
        0
    } else {
        hex_number(s.drop_last()) * 16 + hex_digit_value(s.last())
    }
}

/// `lower_hex(v)` is a string of lower-case hexadecimal digits that denotes
/// `v`, without a leading zero unless `v` is zero.
pub proof fn lemma_lower_hex_denotes(v: nat)
    ensures
        hex_number(lower_hex(v)) == v,
        lower_hex(v).len() >= 1,
        forall|i: int| 0 <= i < lower_hex(v).len() ==> is_lower_hex_digit(#[trigger] lower_hex(v)[i]),
        v > 0 ==> lower_hex(v)[0] != '0',
    decreases v,
{
    if v < 16 {
        let s = lower_hex(v);
        assert(s.drop_last() =~= Seq::<char>::empty());
        assert(hex_number(s.drop_last()) == 0);
        assert(s.last() == hex_digit(v as int));
        assert(hex_digit_value(hex_digit(v as int)) == v);
        assert(hex_number(s) == hex_number(s.drop_last()) * 16 + hex_digit_value(s.last()));
    } else {
        lemma_lower_hex_denotes(v / 16);
        let s = lower_hex(v);
        let d = (v % 16) as int;
        assert(s.drop_last() =~= lower_hex(v / 16));
        assert(s.last() == hex_digit(d));
        assert(hex_digit_value(hex_digit(d)) == d);
        assert(hex_number(s) == hex_number(s.drop_last()) * 16 + hex_digit_value(s.last()));
        assert(v == (v / 16) * 16 + d);
        assert(v / 16 > 0);
        assert forall|i: int| 0 <= i < s.len() implies is_lower_hex_digit(#[trigger] s[i]) by {
            if i < s.len() - 1 {
                assert(s[i] == lower_hex(v / 16)[i]);
            }
        }
        assert(s[0] == lower_hex(v / 16)[0]);
    }
}

/// The debug text of a unit: its kind's name, `<`, the address in
/// lower-case hexadecimal, `>`.
pub proof fn lemma_unit_text(name: Seq<char>, addr: u64)
    ensures
        unit_text(name, addr) == name + seq!['<'] + lower_hex(addr as nat) + seq!['>'],
{
    reveal_strlit("<");
    reveal_strlit(">");
    assert("<"@ =~= seq!['<']);
    assert(">"@ =~= seq!['>']);
}

/// Frames are placed at physical addresses and pages at canonical virtual
/// addresses, and the address value of each is the number it holds.
pub proof fn lemma_unit_addresses(a: PhysAddr, b: VirtAddr, v: u64)
    ensures
        Frame::addr_value(a) == a.value(),
        Frame::addr_valid(v) == phys_addr_valid(v),
        Page::addr_value(b) == b.value(),
        Page::addr_valid(v) == virt_addr_canonical(v),
{
}

/// A frame's page index is its `index` field, and so is a page's.
pub proof fn lemma_unit_indices(f: Frame, p: Page)
    ensures
        f.page_index() == f.index,
        p.page_index() == p.index,
{
}

/// A frame is determined by its page index.
pub proof fn lemma_frame_identity(a: Frame, b: Frame)
    ensures
        a.page_index() == b.page_index() ==> a == b,
{
}

/// A page is determined by its page index.
pub proof fn lemma_page_identity(a: Page, b: Page)
    ensures
        a.page_index() == b.page_index() ==> a == b,
{
}

/// The frame `rhs` frames further on; the index must fit in a `usize`.
impl core::ops::Add<usize> for Frame {
    type Output = Self;

    fn add(self, rhs: usize) -> (r: Self::Output) {
        Self::at(self.index + rhs)
    }
}

impl vstd::std_specs::ops::AddSpecImpl<usize> for Frame {
    open spec fn obeys_add_spec() -> bool {
        true
    }

    open spec fn add_req(self, rhs: usize) -> bool {
        self.index.0 + rhs <= usize::MAX
    }

    open spec fn add_spec(self, rhs: usize) -> Frame {
        Frame { index: PageIndex((self.index.0 + rhs) as usize) }
    }
}

/// The frame `rhs` frames back; it must not go below frame 0.
impl core::ops::Sub<usize> for Frame {
    type Output = Self;

    fn sub(self, rhs: usize) -> (r: Self::Output) {
        Self::at(self.index - rhs)
    }
}

impl vstd::std_specs::ops::SubSpecImpl<usize> for Frame {
    open spec fn obeys_sub_spec() -> bool {
        true
    }

    open spec fn sub_req(self, rhs: usize) -> bool {
        self.index.0 >= rhs
    }

    open spec fn sub_spec(self, rhs: usize) -> Frame {
        Frame { index: PageIndex((self.index.0 - rhs) as usize) }
    }
}

/// Moves the frame `rhs` frames on; the index must fit in a `usize`.
impl core::ops::AddAssign<usize> for Frame {
    fn add_assign(&mut self, rhs: usize)
        requires
            old(self).page_index().0 + rhs <= usize::MAX,
        ensures
            final(self).page_index().0 == old(self).page_index().0 + rhs,
    {
        core::ops::AddAssign::add_assign(&mut self.index, rhs);
    }
}

/// Moves the frame `rhs` frames back; it must not go below frame 0.
impl core::ops::SubAssign<usize> for Frame {
    fn sub_assign(&mut self, rhs: usize)
        requires
            old(self).page_index().0 >= rhs,
        ensures
            final(self).page_index().0 == old(self).page_index().0 - rhs,
    {
        core::ops::SubAssign::sub_assign(&mut self.index, rhs);
    }
}

/// The page `rhs` pages further on; the index must fit in a `usize`.
impl core::ops::Add<usize> for Page {
    type Output = Self;

    fn add(self, rhs: usize) -> (r: Self::Output) {
        Self::at(self.index + rhs)
    }
}

impl vstd::std_specs::ops::AddSpecImpl<usize> for Page {
    open spec fn obeys_add_spec() -> bool {
        true
    }

    open spec fn add_req(self, rhs: usize) -> bool {
        self.index.0 + rhs <= usize::MAX
    }

    open spec fn add_spec(self, rhs: usize) -> Page {
        Page { index: PageIndex((self.index.0 + rhs) as usize) }
    }
}

/// The page `rhs` pages back; it must not go below page 0.
impl core::ops::Sub<usize> for Page {
    type Output = Self;

    fn sub(self, rhs: usize) -> (r: Self::Output) {
        Self::at(self.index - rhs)
    }
}

impl vstd::std_specs::ops::SubSpecImpl<usize> for Page {
    open spec fn obeys_sub_spec() -> bool {
        true
    }

    open spec fn sub_req(self, rhs: usize) -> bool {
        self.index.0 >= rhs
    }

    open spec fn sub_spec(self, rhs: usize) -> Page {
        Page { index: PageIndex((self.index.0 - rhs) as usize) }
    }
}

/// Moves the page `rhs` pages on; the index must fit in a `usize`.
impl core::ops::AddAssign<usize> for Page {
    fn add_assign(&mut self, rhs: usize)
        requires
            old(self).page_index().0 + rhs <= usize::MAX,
        ensures
            final(self).page_index().0 == old(self).page_index().0 + rhs,
    {
        core::ops::AddAssign::add_assign(&mut self.index, rhs);
    }
}

/// Moves the page `rhs` pages back; it must not go below page 0.
impl core::ops::SubAssign<usize> for Page {
    fn sub_assign(&mut self, rhs: usize)
        requires
            old(self).page_index().0 >= rhs,
        ensures
            final(self).page_index().0 == old(self).page_index().0 - rhs,
    {
        core::ops::SubAssign::sub_assign(&mut self.index, rhs);
    }
}

} // verus!
