//! Layout introspection: for any concrete type, the bitmasks that alignment
//! guarantees. A pointer to a type of alignment `2^k` always has its `k` low
//! address bits zero; those bits are the *tag mask*, the complement is the
//! *pointer mask*.

use vstd::arithmetic::power::pow;
use vstd::arithmetic::power2::{
    is_pow2, is_pow2_equiv, lemma2_to64, lemma_pow2_pos, lemma_pow2_strictly_increases,
    lemma_pow2_unfold, pow2,
};
use vstd::bits::{lemma_usize_low_bits_mask_is_mod, low_bits_mask};
use vstd::layout::{align_nonzero, align_of, align_properties, size_of, unsigned_int_max_values};
use vstd::prelude::*;

verus! {

/// Base-2 logarithm, rounded down; 0 for 0.
pub open spec fn log2(n: nat) -> nat
    decreases n,
{
    if n <= 1 {
        0
    } else {
        (1 + log2(n / 2)) as nat
    }
}

/// How many low bits of a valid address of a `T` are guaranteed zero.
pub open spec fn spec_align_bits<T>() -> nat {
    log2(align_of::<T>())
}

/// Whether at least one low address bit is free for tagging.
pub open spec fn spec_tagging_allowed<T>() -> bool {
    align_of::<T>() > 1
}

/// Mask of the low address bits that alignment leaves free: `align - 1`.
pub open spec fn spec_tag_mask<T>() -> usize {
    (align_of::<T>() - 1) as usize
}

/// Mask of the bits that hold the real address: the complement of the tag mask.
pub open spec fn spec_ptr_mask<T>() -> usize {
    !spec_tag_mask::<T>()
}

/// An address is validly aligned for `T` when none of the tag-mask bits is set.
pub open spec fn is_aligned<T>(addr: usize) -> bool {
    addr & spec_tag_mask::<T>() == 0
}

/// `log2` inverts `pow2`.
pub proof fn lemma_log2_pow2(k: nat)
    ensures
        log2(pow2(k)) == k,
    decreases k,
{
    if k == 0 {
        lemma2_to64();
    } else {
        lemma_pow2_unfold(k);
        lemma_pow2_pos((k - 1) as nat);
        lemma_log2_pow2((k - 1) as nat);
    }
}

/// A power of two that fits in a machine word has an exponent below the word width.
pub proof fn lemma_pow2_lt_bits(e: nat)
    requires
        pow2(e) <= usize::MAX,
    ensures
        e < usize::BITS,
{
    unsigned_int_max_values();
    if e > usize::BITS {
        lemma_pow2_strictly_increases(usize::BITS as nat, e);
    }
}

/// The alignment of every type is a power of two: yields its exponent.
pub proof fn lemma_align_exponent<T>() -> (k: nat)
    ensures
        align_of::<T>() == pow2(k),
{
    broadcast use align_properties, is_pow2_equiv;

    let i = choose|i: nat| pow(2, i) == align_of::<T>() as int;
    assert(pow2(i) == pow(2, i)) by {
        vstd::arithmetic::power2::lemma_pow2(i);
    }
    i
}

/// The tag mask of a type whose alignment is `2^k` (and fits in a word) is the
/// low-`k`-bits mask `2^k - 1`; `k` is the count of alignment bits; an address
/// is aligned exactly when it is a multiple of the alignment; and the alignment
/// itself has no tag-mask bit set.
pub proof fn lemma_type_masks<T>(k: nat)
    requires
        align_of::<T>() == pow2(k),
        align_of::<T>() <= usize::MAX,
    ensures
        spec_align_bits::<T>() == k,
        k < usize::BITS,
        spec_tag_mask::<T>() as nat == low_bits_mask(k),
        spec_tag_mask::<T>() as nat == align_of::<T>() - 1,
        forall|p: usize| #[trigger] is_aligned::<T>(p) <==> p as nat % align_of::<T>() == 0,
        is_aligned::<T>(align_of::<T>() as usize),
        spec_tagging_allowed::<T>() <==> spec_tag_mask::<T>() != 0,
{
    lemma_log2_pow2(k);
    lemma_pow2_lt_bits(k);
    lemma_pow2_pos(k);
    assert forall|p: usize| #[trigger] is_aligned::<T>(p) <==> p as nat % align_of::<T>() == 0 by {
        lemma_usize_low_bits_mask_is_mod(p, k);
    }
    lemma_usize_low_bits_mask_is_mod(align_of::<T>() as usize, k);
}

/// A type of alignment 1 has no free low bits: tagging is disallowed and the
/// tag mask is zero.
pub proof fn lemma_align_one_no_tagging<T>()
    requires
        align_of::<T>() == 1,
    ensures
        !spec_tagging_allowed::<T>(),
        spec_tag_mask::<T>() == 0,
{
}

/// The two masks partition the word: they share no bit, and splitting any word
/// by them loses nothing.
pub proof fn lemma_masks_partition<T>()
    ensures
        spec_tag_mask::<T>() & spec_ptr_mask::<T>() == 0,
        forall|w: usize| #[trigger] ((w & spec_tag_mask::<T>()) | (w & spec_ptr_mask::<T>())) == w,
{
    let m = spec_tag_mask::<T>();
    assert(m & !m == 0) by (bit_vector);
    assert forall|w: usize| #[trigger] ((w & m) | (w & !m)) == w by {
        assert((w & m) | (w & !m) == w) by (bit_vector);
    }
}

/// Memory-layout introspection for a type: its size, its alignment, and the
/// derived masks that say which low address bits are free for tagging.
///
/// Implemented for every (sized) type by the blanket impl below.
pub trait HasLayout: Sized {
    /// The size of the type in bytes.
    fn size() -> (s: usize)
        ensures
            s as nat == size_of::<Self>(),
    ;

    /// The alignment of the type in bytes: a nonzero power of two.
    fn align() -> (a: usize)
        ensures
            a as nat == align_of::<Self>(),
            a >= 1,
    ;

    /// The count of low bits guaranteed zero in any valid address of `Self`:
    /// the base-2 logarithm of the alignment.
    fn align_bits() -> (k: u32)
        ensures
            k as nat == spec_align_bits::<Self>(),
            pow2(k as nat) == align_of::<Self>(),
            k < usize::BITS,
    ;

    /// Whether any properly aligned address of `Self` has at least one low bit
    /// free for tagging.
    fn tagging_allowed() -> (r: bool)
        ensures
            r == spec_tagging_allowed::<Self>(),
    ;

    /// The mask of the low address bits that alignment keeps zero: `align - 1`.
    fn align_mask() -> (m: usize)
        ensures
            m == spec_tag_mask::<Self>(),
            m as nat == align_of::<Self>() - 1,
            m as nat == low_bits_mask(spec_align_bits::<Self>()),
    ;

    /// The alignment mask again, under the name that says what it is used for:
    /// the bits a tag may occupy.
    fn tag_mask() -> (m: usize)
        ensures
            m == spec_tag_mask::<Self>(),
            m as nat == align_of::<Self>() - 1,
            m as nat == low_bits_mask(spec_align_bits::<Self>()),
    ;

    /// The mask of the bits that hold the real address.
    fn ptr_mask() -> (m: usize)
        ensures
            m == spec_ptr_mask::<Self>(),
    ;
}

impl<T> HasLayout for T {
    fn size() -> (s: usize) {
        core::mem::size_of::<T>()
    }

    fn align() -> (a: usize) {
        proof {
            broadcast use align_nonzero;

        }
        core::mem::align_of::<T>()
    }

    fn align_bits() -> (k: u32) {
        let a: usize = <T as HasLayout>::align();
        let mut v: usize = a;
        let mut k: u32 = 0;
        proof {
            broadcast use align_properties;

            lemma2_to64();
        }
        while v > 1
            invariant
                a as nat == align_of::<T>(),
                a <= usize::MAX,
                is_pow2(v as int),
                pow2(k as nat) * v == a as nat,
                k < usize::BITS,
            decreases v,
        {
            proof {
                reveal(is_pow2);
                lemma_pow2_unfold((k + 1) as nat);
                assert(pow2((k + 1) as nat) * ((v / 2) as nat) == pow2(k as nat) * v as nat)
                    by (nonlinear_arith)
                    requires
                        v % 2 == 0,
                        v > 1,
                        pow2((k + 1) as nat) == 2 * pow2(k as nat),
                ;
                assert(pow2((k + 1) as nat) <= a as nat) by (nonlinear_arith)
                    requires
                        pow2((k + 1) as nat) * ((v / 2) as nat) == a as nat,
                        v / 2 >= 1,
                        pow2((k + 1) as nat) > 0,
                ;
                lemma_pow2_lt_bits((k + 1) as nat);
            }
            v = v / 2;
            k = k + 1;
        }
        proof {
            reveal(is_pow2);
            assert(v == 1);
            lemma_log2_pow2(k as nat);
        }
        k
    }

    fn tagging_allowed() -> (r: bool) {
        <T as HasLayout>::align() > 1
    }

    fn align_mask() -> (m: usize) {
        let a: usize = <T as HasLayout>::align();
        proof {
            let k = lemma_align_exponent::<T>();
            lemma_type_masks::<T>(k);
        }
        a - 1
    }

    fn tag_mask() -> (m: usize) {
        <T as HasLayout>::align_mask()
    }

    fn ptr_mask() -> (m: usize) {
        !<T as HasLayout>::tag_mask()
    }
}

} // verus!
