//! Tags and tagged pointers on concrete addresses and values.

use tagged_ptr::addr::Addr;
use tagged_ptr::layout::HasLayout;
use tagged_ptr::tag_ptr::{Tag, TagPtr};

#[test]
fn tag_validity_follows_the_mask() {
    assert!(Tag::<u32>::is_valid(0));
    assert!(Tag::<u32>::is_valid(0b01));
    assert!(Tag::<u32>::is_valid(0b10));
    assert!(Tag::<u32>::is_valid(0b11));
    assert!(!Tag::<u32>::is_valid(0b100));
    assert!(!Tag::<u32>::is_valid(usize::MAX));
}

#[test]
fn tag_new_accepts_exactly_the_valid_values() {
    assert!(Tag::<u32>::new(0).is_some());
    assert!(Tag::<u32>::new(3).is_some());
    assert!(Tag::<u32>::new(4).is_none());
    assert_eq!(Tag::<u32>::new(2).unwrap().get(), 2);
}

#[test]
fn tag_boundaries() {
    assert_eq!(Tag::<u32>::max().get(), <u32 as HasLayout>::tag_mask());
    assert_eq!(Tag::<u32>::min().get(), 0);
    assert!(Tag::<u32>::new(<u32 as HasLayout>::tag_mask() + 1).is_none());
    assert_eq!(Tag::<u64>::max().get(), 0b111);
}

#[test]
fn byte_aligned_type_admits_only_the_zero_tag() {
    assert!(Tag::<u8>::new(0).is_some());
    assert!(Tag::<u8>::new(1).is_none());
    assert!(Tag::<u8>::new(2).is_none());
    assert_eq!(Tag::<u8>::max().get(), 0);
}

#[test]
fn tag_default_is_min() {
    let t: Tag<u32> = Default::default();
    assert_eq!(t.get(), 0);
    assert_eq!(t, Tag::<u32>::min());
}

#[test]
fn tag_unchecked_keeps_the_value() {
    let t = Tag::<u32>::new_unchecked(0b01);
    assert_eq!(t.get(), 1);
}

#[test]
fn addr_rejects_null() {
    assert!(Addr::<u32>::new(0).is_none());
    let a = Addr::<u32>::new(0x1000).unwrap();
    assert_eq!(a.addr(), 0x1000);
}

#[test]
fn pack_and_unpack_round_trip() {
    let p = Addr::<u32>::new(0x1000).unwrap();
    let t = Tag::<u32>::new(0b10).unwrap();
    let tp = TagPtr::try_new(p, t).unwrap();
    assert_eq!(tp.raw(), 0x1002);
    assert_eq!(tp.ptr().addr(), 0x1000);
    assert_eq!(tp.ptr(), p);
    assert_eq!(tp.tag().get(), 2);
    assert_eq!(tp.tag(), t);
}

#[test]
fn misaligned_addresses_are_rejected() {
    let t = Tag::<u32>::new(1).unwrap();
    assert!(TagPtr::try_new(Addr::<u32>::new(0x1001).unwrap(), t).is_none());
    assert!(TagPtr::try_new(Addr::<u32>::new(0x1002).unwrap(), t).is_none());
    assert!(TagPtr::try_new(Addr::<u32>::new(0x1003).unwrap(), t).is_none());
    assert!(TagPtr::try_new(Addr::<u32>::new(0x1004).unwrap(), t).is_some());
}

#[test]
fn new_and_new_unchecked_pack_like_try_new() {
    let p = Addr::<u64>::new(0x2000).unwrap();
    let t = Tag::<u64>::new(0b101).unwrap();
    let a = TagPtr::new(p, t);
    let b = TagPtr::new_unchecked(p, t);
    let c = TagPtr::try_new(p, t).unwrap();
    assert_eq!(a, b);
    assert_eq!(b, c);
    assert_eq!(a.raw(), 0x2005);
}

#[test]
fn dangling_packs_the_alignment_with_the_tag() {
    let t = Tag::<u64>::new(5).unwrap();
    let tp = TagPtr::dangling(t);
    assert_eq!(tp.raw(), 8 | 5);
    assert_eq!(tp.raw(), 13);
    assert_ne!(tp.raw(), 0);
    assert_eq!(tp.ptr().addr(), 8);
    assert_eq!(tp.tag().get(), 5);
}

#[test]
fn with_tag_keeps_the_address() {
    let p = Addr::<u32>::new(0x1000).unwrap();
    let tp = TagPtr::new(p, Tag::new(0b01).unwrap());
    let tp2 = tp.with_tag(Tag::new(0b11).unwrap());
    assert_eq!(tp2.ptr().addr(), 0x1000);
    assert_eq!(tp2.tag().get(), 0b11);
    assert_eq!(tp2.raw(), 0x1003);
}

#[test]
fn with_ptr_keeps_the_tag() {
    let tp = TagPtr::new(Addr::<u32>::new(0x1000).unwrap(), Tag::new(0b10).unwrap());
    let tp2 = tp.with_ptr(Addr::new(0x2000).unwrap());
    assert_eq!(tp2.ptr().addr(), 0x2000);
    assert_eq!(tp2.tag().get(), 0b10);
}

#[test]
fn rewriting_either_half_with_itself_changes_nothing() {
    let tp = TagPtr::new(Addr::<u32>::new(0x1000).unwrap(), Tag::new(0b10).unwrap());
    assert_eq!(tp.with_tag(tp.tag()), tp);
    assert_eq!(tp.with_ptr(tp.ptr()), tp);
}

#[test]
fn set_tag_and_set_ptr_update_in_place() {
    let mut tp = TagPtr::new(Addr::<u32>::new(0x1000).unwrap(), Tag::new(0b01).unwrap());
    tp.set_tag(Tag::new(0b10).unwrap());
    assert_eq!(tp.raw(), 0x1002);
    tp.set_ptr(Addr::new(0x2000).unwrap());
    assert_eq!(tp.raw(), 0x2002);
    assert_eq!(tp.ptr().addr(), 0x2000);
    assert_eq!(tp.tag().get(), 0b10);
}

#[test]
fn equality_covers_both_halves() {
    let p = Addr::<u32>::new(0x1000).unwrap();
    let q = Addr::<u32>::new(0x1004).unwrap();
    let t1 = Tag::<u32>::new(1).unwrap();
    let t2 = Tag::<u32>::new(2).unwrap();
    assert_eq!(TagPtr::new(p, t1), TagPtr::new(p, t1));
    assert_ne!(TagPtr::new(p, t1), TagPtr::new(p, t2));
    assert_ne!(TagPtr::new(p, t1), TagPtr::new(q, t1));
    assert_eq!(t1, Tag::<u32>::new(1).unwrap());
    assert_ne!(t1, t2);
}
