use r2ox::memory::addr::{PhysAddr, VirtAddr};
use r2ox::memory::allocator::Lists;
use r2ox::memory::pager::index::PageIndex;
use r2ox::memory::pager::paging::{Frame, Page};
use r2ox::memory::range::UnitRange;
use r2ox::memory::traits::{Range, RangeError, Unit};
use r2ox::memory::PAGE_SIZE;

fn frames(start: usize, end: usize) -> UnitRange<Frame> {
    UnitRange::new(Frame::at(PageIndex::new(start)), Frame::at(PageIndex::new(end)))
}

#[test]
fn page_index_new_holds_value() {
    assert_eq!(PageIndex::new(42).0, 42);
}

#[test]
fn page_index_from_phys_addr_divides_by_page_size() {
    assert_eq!(PageIndex::from(PhysAddr::new(0)), PageIndex(0));
    assert_eq!(PageIndex::from(PhysAddr::new(4095)), PageIndex(0));
    assert_eq!(PageIndex::from(PhysAddr::new(4096)), PageIndex(1));
    assert_eq!(PageIndex::from(PhysAddr::new(0x12345)), PageIndex(0x12));
}

#[test]
fn page_index_from_virt_addr_divides_by_page_size() {
    assert_eq!(PageIndex::from(VirtAddr::new(0x2000)), PageIndex(2));
    assert_eq!(
        PageIndex::from(VirtAddr::new(0xffff_8000_0000_1000)),
        PageIndex(0xffff_8000_0000_1000 / 4096)
    );
}

#[test]
fn phys_addr_from_index_multiplies_by_page_size() {
    assert_eq!(PhysAddr::from(PageIndex(3)).as_u64(), 3 * 4096);
    assert_eq!(VirtAddr::from(PageIndex(5)).as_u64(), 5 * 4096);
}

#[test]
fn index_address_round_trip() {
    let i = PageIndex(777);
    assert_eq!(PageIndex::from(PhysAddr::from(i)), i);
    assert_eq!(PageIndex::from(VirtAddr::from(i)), i);
}

#[test]
fn page_holds_its_address() {
    let a = PhysAddr::new(0x5123);
    let base = PhysAddr::from(PageIndex::from(a)).as_u64();
    assert_eq!(base, 0x5000);
    assert!(base <= a.as_u64() && a.as_u64() < base + PAGE_SIZE as u64);
}

#[test]
fn addresses_keep_their_value() {
    assert_eq!(PhysAddr::new(0x000f_ffff_ffff_ffff).as_u64(), 0x000f_ffff_ffff_ffff);
    assert_eq!(VirtAddr::new(0x0000_7fff_ffff_ffff).as_u64(), 0x0000_7fff_ffff_ffff);
    assert_eq!(VirtAddr::new(0xffff_8000_0000_0000).as_u64(), 0xffff_8000_0000_0000);
}

#[test]
fn page_index_arithmetic() {
    let mut p = PageIndex(10);
    assert_eq!(p + 5, PageIndex(15));
    assert_eq!(p - 4, PageIndex(6));
    p += 3;
    assert_eq!(p, PageIndex(13));
    p -= 13;
    assert_eq!(p, PageIndex(0));
}

#[test]
fn frame_and_page_units() {
    let f = Frame::at(PageIndex(2));
    assert_eq!(f.index(), PageIndex(2));
    assert_eq!(f.addr().as_u64(), 0x2000);
    assert_eq!(f.inclusive_addr().as_u64(), 0x2000);
    assert!(Frame::new(PhysAddr::new(0x2fff)) == f);
    let p = Page::at(PageIndex(7));
    assert_eq!(p.addr().as_u64(), 0x7000);
    assert!(Page::new(VirtAddr::new(0x7001)) == p);
}

#[test]
fn unit_address_round_trip() {
    let f = Frame::at(PageIndex(123));
    assert!(Frame::new(f.addr()) == f);
    let p = Page::at(PageIndex(321));
    assert!(Page::new(p.addr()) == p);
}

#[test]
fn unit_arithmetic() {
    let mut f = Frame::at(PageIndex(4));
    assert_eq!((f + 2).index(), PageIndex(6));
    assert_eq!((f - 4).index(), PageIndex(0));
    f += 1;
    assert_eq!(f.index(), PageIndex(5));
    f -= 2;
    assert_eq!(f.index(), PageIndex(3));
    let mut p = Page::at(PageIndex(9));
    p += 1;
    assert_eq!((p - 10).index(), PageIndex(0));
}

#[test]
fn unit_debug_strings() {
    assert_eq!(Frame::at(PageIndex(0x1a)).to_debug_string(), "Frame<1a000>");
    assert_eq!(Page::at(PageIndex(0)).to_debug_string(), "Page<0>");
    assert_eq!(Page::at(PageIndex(0xf)).to_debug_string(), "Page<f000>");
}

#[test]
fn range_accessors_and_sizes() {
    let r = frames(3, 7);
    assert_eq!(r.start().index(), PageIndex(3));
    assert_eq!(r.end().index(), PageIndex(7));
    assert_eq!(r.as_page_size(), 5);
    assert_eq!(r.as_bytes(), 5 * 4096);
    assert_eq!(frames(4, 4).as_page_size(), 1);
    assert!(!r.is_empty());
    assert_eq!(r.start_addr().as_u64(), 0x3000);
    assert_eq!(r.inclusive_addr().as_u64(), 0x7000);
}

#[test]
fn empty_range_holds_nothing() {
    let e: UnitRange<Frame> = UnitRange::empty();
    assert_eq!(e.start().index(), PageIndex(1));
    assert_eq!(e.end().index(), PageIndex(0));
    assert!(e.is_empty());
    assert!(!e.contains(Frame::at(PageIndex(0))));
    assert!(!e.contains(Frame::at(PageIndex(1))));
    assert!(!e.overlaps(frames(0, 10)));
    assert!(!frames(0, 10).consumes(e));
    assert!(e.nth(0).is_none());
}

#[test]
fn range_contains_its_units_only() {
    let r = frames(3, 7);
    assert!(!r.contains(Frame::at(PageIndex(2))));
    assert!(r.contains(Frame::at(PageIndex(3))));
    assert!(r.contains(Frame::at(PageIndex(7))));
    assert!(!r.contains(Frame::at(PageIndex(8))));
}

#[test]
fn overlap_is_symmetric_and_means_a_shared_unit() {
    let a = frames(1, 5);
    let b = frames(5, 9);
    let c = frames(6, 9);
    assert!(a.overlaps(b) && b.overlaps(a));
    assert!(!a.overlaps(c) && !c.overlaps(a));
    assert!(a.contains(Frame::at(PageIndex(5))) && b.contains(Frame::at(PageIndex(5))));
}

#[test]
fn consumes_means_holding_every_unit() {
    let a = frames(1, 9);
    assert!(a.consumes(frames(2, 8)));
    assert!(a.consumes(frames(1, 9)));
    assert!(!a.consumes(frames(0, 3)));
    assert!(!frames(2, 8).consumes(a));
    assert!(a.overlaps(frames(2, 8)));
}

#[test]
fn merge_adjacent_after() {
    let mut r = frames(1, 3);
    assert_eq!(r.merge(frames(4, 6)), Ok(()));
    assert_eq!(r.start().index(), PageIndex(1));
    assert_eq!(r.end().index(), PageIndex(6));
}

#[test]
fn merge_adjacent_before() {
    let mut r = frames(4, 6);
    assert_eq!(r.merge(frames(1, 3)), Ok(()));
    assert_eq!(r.start().index(), PageIndex(1));
    assert_eq!(r.end().index(), PageIndex(6));
}

#[test]
fn merge_is_union() {
    let a = frames(10, 12);
    let b = frames(13, 20);
    let mut c = a;
    c.merge(b).unwrap();
    for i in 0..25 {
        let u = Frame::at(PageIndex(i));
        assert_eq!(c.contains(u), a.contains(u) || b.contains(u));
    }
}

#[test]
fn merge_empty_changes_nothing() {
    let mut r = frames(1, 3);
    let e: UnitRange<Frame> = UnitRange::empty();
    assert_eq!(r.merge(e), Ok(()));
    assert_eq!(r.start().index(), PageIndex(1));
    assert_eq!(r.end().index(), PageIndex(3));
}

#[test]
fn merge_refuses_distant_ranges() {
    let mut r = frames(1, 3);
    let err = r.merge(frames(5, 6));
    assert_eq!(err, Err(RangeError::NotAdjacent));
    assert_eq!(RangeError::NotAdjacent.message(), "Error merging pages");
    assert_eq!(r.start().index(), PageIndex(1));
    assert_eq!(r.end().index(), PageIndex(3));
}

#[test]
fn merge_of_overlapping_ranges_is_refused() {
    let mut r = frames(1, 5);
    assert_eq!(r.merge(frames(3, 8)), Err(RangeError::NotAdjacent));
}

#[test]
fn nth_counts_from_start() {
    let r = frames(3, 5);
    assert_eq!(r.nth(0).map(|u| u.index()), Some(PageIndex(3)));
    assert_eq!(r.nth(2).map(|u| u.index()), Some(PageIndex(5)));
    assert!(r.nth(3).is_none());
}

#[test]
fn page_ranges_work_too() {
    let r: UnitRange<Page> = UnitRange::new(Page::at(PageIndex(8)), Page::at(PageIndex(9)));
    assert_eq!(r.as_bytes(), 8192);
    assert_eq!(r.start_addr().as_u64(), 0x8000);
}

#[test]
fn static_list_push_and_remove() {
    let mut l: Lists<u32, 4> = Lists::new_static();
    l.push(1);
    l.push(2);
    l.push(3);
    assert_eq!(l.remove(1), 2);
    assert_eq!(l.remove(0), 1);
    assert_eq!(l.remove(0), 3);
    assert!(matches!(l, Lists::StaticList(_)));
}

#[test]
fn vec_list_push_and_remove() {
    let mut l: Lists<u32, 1> = Lists::new_vec();
    for i in 0..10 {
        l.push(i);
    }
    assert_eq!(l.remove(9), 9);
    assert_eq!(l.remove(0), 0);
    match l {
        Lists::Vec(v) => assert_eq!(v, vec![1, 2, 3, 4, 5, 6, 7, 8]),
        Lists::StaticList(_) => panic!("expected a growable list"),
    }
}

#[test]
fn to_vec_keeps_items() {
    let mut l: Lists<u32, 3> = Lists::new_static();
    l.push(7);
    l.push(8);
    l.to_vec();
    match &l {
        Lists::Vec(v) => assert_eq!(v, &vec![7, 8]),
        Lists::StaticList(_) => panic!("expected a growable list"),
    }
    l.push(9);
    l.push(10);
    l.to_vec();
    match l {
        Lists::Vec(v) => assert_eq!(v, vec![7, 8, 9, 10]),
        Lists::StaticList(_) => panic!("expected a growable list"),
    }
}

#[test]
fn add_then_sub_returns() {
    let p = PageIndex(41);
    assert_eq!((p + 9) - 9, p);
}

#[test]
fn merge_adds_sizes() {
    let a = frames(2, 4);
    let b = frames(5, 11);
    let mut c = a;
    c.merge(b).unwrap();
    assert_eq!(c.as_page_size(), a.as_page_size() + b.as_page_size());
}

#[test]
fn page_indices_order_by_number() {
    assert!(PageIndex::new(3) <= PageIndex::new(5));
    assert!(PageIndex::new(5) <= PageIndex::new(5));
    assert!(!(PageIndex::new(6) <= PageIndex::new(5)));
    assert!(PageIndex::new(2) < PageIndex::new(3));
    let p = PageIndex(7);
    assert!(p + 4 >= p);
    assert!(p + 0 >= p);
    assert_eq!(PageIndex(1).cmp(&PageIndex(2)), std::cmp::Ordering::Less);
}

#[test]
fn frames_and_pages_order_by_index() {
    assert!(Frame::at(PageIndex(1)) < Frame::at(PageIndex(2)));
    assert!(Page::at(PageIndex(9)) > Page::at(PageIndex(2)));
    assert!(Frame::at(PageIndex(4)) >= Frame::at(PageIndex(4)));
}

#[test]
fn unit_of_an_address_starts_at_it_rounded_down() {
    let a = PhysAddr::new(0x3abc);
    assert_eq!(Frame::new(a).addr().as_u64(), 0x3000);
    let v = VirtAddr::new(0x7fff);
    assert_eq!(Page::new(v).addr().as_u64(), 0x7000);
}

#[test]
fn static_list_fills_to_capacity() {
    let mut l: Lists<String, 3> = Lists::new_static();
    l.push("a".to_string());
    l.push("b".to_string());
    l.push("c".to_string());
    assert_eq!(l.remove(0), "a");
    l.push("d".to_string());
    assert_eq!(l.remove(2), "d");
    assert_eq!(l.remove(1), "c");
    assert_eq!(l.remove(0), "b");
    match &l {
        Lists::StaticList(b) => assert_eq!(b.len(), 0),
        Lists::Vec(_) => panic!("expected a bounded list"),
    }
}
