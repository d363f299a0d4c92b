//! Layout introspection: masks derived from alignment, on concrete types.

use tagged_ptr::layout::HasLayout;

#[test]
fn four_byte_alignment_masks() {
    assert_eq!(<u32 as HasLayout>::size(), 4);
    assert_eq!(<u32 as HasLayout>::align(), 4);
    assert_eq!(<u32 as HasLayout>::align_bits(), 2);
    assert!(<u32 as HasLayout>::tagging_allowed());
    assert_eq!(<u32 as HasLayout>::tag_mask(), 0b11);
    assert_eq!(<u32 as HasLayout>::ptr_mask(), !0b11usize);
}

#[test]
fn two_byte_alignment_masks() {
    assert_eq!(<u16 as HasLayout>::align(), 2);
    assert_eq!(<u16 as HasLayout>::align_bits(), 1);
    assert!(<u16 as HasLayout>::tagging_allowed());
    assert_eq!(<u16 as HasLayout>::tag_mask(), 0b1);
    assert_eq!(<u16 as HasLayout>::ptr_mask(), !0b1usize);
}

#[test]
fn eight_byte_alignment_masks() {
    assert_eq!(<u64 as HasLayout>::align(), 8);
    assert_eq!(<u64 as HasLayout>::align_bits(), 3);
    assert_eq!(<u64 as HasLayout>::tag_mask(), 0b111);
}

#[test]
fn byte_aligned_type_disallows_tagging() {
    assert_eq!(<u8 as HasLayout>::align(), 1);
    assert_eq!(<u8 as HasLayout>::align_bits(), 0);
    assert!(!<u8 as HasLayout>::tagging_allowed());
    assert_eq!(<u8 as HasLayout>::tag_mask(), 0);
    assert_eq!(<u8 as HasLayout>::ptr_mask(), usize::MAX);
}

#[test]
fn masks_partition_the_word() {
    assert_eq!(
        <u32 as HasLayout>::tag_mask() & <u32 as HasLayout>::ptr_mask(),
        0
    );
    assert_eq!(
        <u32 as HasLayout>::tag_mask() | <u32 as HasLayout>::ptr_mask(),
        usize::MAX
    );
    assert_eq!(
        <u8 as HasLayout>::tag_mask() | <u8 as HasLayout>::ptr_mask(),
        usize::MAX
    );
}

#[test]
fn size_of_unit_and_pair() {
    assert_eq!(<() as HasLayout>::size(), 0);
    assert_eq!(<() as HasLayout>::align(), 1);
    assert_eq!(<(u32, u32) as HasLayout>::size(), 8);
    assert_eq!(<(u32, u32) as HasLayout>::align(), 4);
}

#[test]
fn masks_follow_the_alignment_formula() {
    // Independent of what alignment the platform gives u128.
    let a = <u128 as HasLayout>::align();
    assert!(a.is_power_of_two());
    assert_eq!(<u128 as HasLayout>::tag_mask(), a - 1);
    assert_eq!(<u128 as HasLayout>::align_mask(), a - 1);
    assert_eq!(<u128 as HasLayout>::ptr_mask(), !(a - 1));
    assert_eq!(<u128 as HasLayout>::align_bits(), a.trailing_zeros());
    assert_eq!(<u128 as HasLayout>::tagging_allowed(), a > 1);
}

#[test]
fn align_mask_and_tag_mask_agree() {
    assert_eq!(
        <u32 as HasLayout>::align_mask(),
        <u32 as HasLayout>::tag_mask()
    );
    assert_eq!(<u64 as HasLayout>::align_mask(), 0b111);
}
