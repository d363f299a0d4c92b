//! Tags and tagged pointers.
//!
//! A [`Tag`] is a small integer that fits inside the tag mask of its
//! destination type, so it can ride in the low bits of an aligned address. A
//! [`TagPtr`] is one machine word that fuses a non-null, aligned address of a
//! `T` with such a tag, losslessly decodable into either half.

use core::marker::PhantomData;
use vstd::prelude::*;

use crate::addr::Addr;
use crate::layout::{
    is_aligned, lemma_align_exponent, lemma_type_masks, spec_ptr_mask, spec_tag_mask, HasLayout,
};
use vstd::arithmetic::power2::pow2;
use vstd::layout::align_of;
use vstd::pervasive::unreached;

verus! {

/// An integer value that always fits in the alignment bits of a pointer to `T`.
///
/// Invariant (see [`Tag::wf`]): every set bit of the value lies inside
/// `spec_tag_mask::<T>()`. Constructors establish it; the value is immutable.
#[verifier::reject_recursive_types(T)]
#[derive(Debug, Hash, PartialOrd, Ord)]
pub struct Tag<T> {
    tag: usize,
    _marker: PhantomData<T>,
}

impl<T> View for Tag<T> {
    type V = usize;

    closed spec fn view(&self) -> usize {
        self.tag
    }
}

impl<T> Tag<T> {
    /// A tag value is valid when no bit of it lies outside the tag mask.
    pub open spec fn spec_is_valid(tag: usize) -> bool {
        tag & spec_tag_mask::<T>() == tag
    }

    /// The invariant of every constructed tag.
    pub open spec fn wf(self) -> bool {
        Self::spec_is_valid(self@)
    }

    /// Whether a raw value would make a valid tag for `T`.
    pub fn is_valid(tag: usize) -> (r: bool)
        ensures
            r == Self::spec_is_valid(tag),
    {
        tag & <T as HasLayout>::tag_mask() == tag
    }

    /// Make a tag, or `None` when the value has bits outside the tag mask.
    pub fn new(tag: usize) -> (r: Option<Tag<T>>)
        ensures
            r is Some <==> Self::spec_is_valid(tag),
            (r matches Some(t) ==> t@ == tag && t.wf()),
    {
        if Self::is_valid(tag) {
            Some(Tag { tag, _marker: PhantomData })
        } else {
            None
        }
    }

    /// Make a tag from a value the caller has already shown valid.
    pub fn new_unchecked(tag: usize) -> (r: Tag<T>)
        requires
            Self::spec_is_valid(tag),
        ensures
            r@ == tag,
            r.wf(),
    {
        Tag { tag, _marker: PhantomData }
    }

    /// The integer value of the tag; valid by the type's invariant.
    pub fn get(self) -> (r: usize)
        ensures
            r == self@,
    {
        self.tag
    }

    /// The smallest tag: zero, valid for every type.
    pub fn min() -> (r: Tag<T>)
        ensures
            r@ == 0,
            r.wf(),
    {
        proof {
            assert(0usize & spec_tag_mask::<T>() == 0usize) by (bit_vector);
        }
        Tag { tag: 0, _marker: PhantomData }
    }

    /// The largest tag: the whole tag mask.
    pub fn max() -> (r: Tag<T>)
        ensures
            r@ == spec_tag_mask::<T>(),
            r.wf(),
    {
        let m = <T as HasLayout>::tag_mask();
        proof {
            assert(m & m == m) by (bit_vector);
        }
        Tag { tag: m, _marker: PhantomData }
    }
}

/// One past the largest tag is never a valid tag: `tag_mask + 1` is the
/// alignment itself, whose one set bit lies outside the mask.
pub proof fn lemma_tag_above_mask_invalid<T>(k: nat)
    requires
        align_of::<T>() == pow2(k),
        align_of::<T>() <= usize::MAX,
    ensures
        spec_tag_mask::<T>() + 1 == align_of::<T>(),
        !Tag::<T>::spec_is_valid((spec_tag_mask::<T>() + 1) as usize),
{
    lemma_type_masks::<T>(k);
    vstd::arithmetic::power2::lemma_pow2_pos(k);
    assert(is_aligned::<T>(align_of::<T>() as usize));
}

impl<T> Default for Tag<T> {
    /// The default tag is the smallest one.
    fn default() -> (r: Self)
        ensures
            r@ == 0,
            r.wf(),
    {
        Tag::min()
    }
}

impl<T> Clone for Tag<T> {
    fn clone(&self) -> (r: Self)
        ensures
            r == *self,
    {
        *self
    }
}

impl<T> Copy for Tag<T> {}

impl<T> PartialEq for Tag<T> {
    fn eq(&self, other: &Self) -> (r: bool) {
        self.tag == other.tag
    }
}

impl<T> vstd::std_specs::cmp::PartialEqSpecImpl for Tag<T> {
    open spec fn obeys_eq_spec() -> bool {
        true
    }

    open spec fn eq_spec(&self, other: &Self) -> bool {
        self@ == other@
    }
}

impl<T> Eq for Tag<T> {}

/// Packing an aligned word with a masked word recovers each half exactly.
proof fn lemma_pack(p: usize, t: usize, m: usize)
    by (bit_vector)
    requires
        p & m == 0,
        t & m == t,
    ensures
        (p | t) & !m == p,
        (p | t) & m == t,
{
}

/// Splitting a word by a mask and its complement loses nothing, and each half
/// stays inside its own mask.
proof fn lemma_split(w: usize, m: usize)
    by (bit_vector)
    ensures
        (w & !m) & m == 0,
        (w & m) & m == w & m,
        ((w & !m) | (w & m)) == w,
{
}

/// A single word fusing a non-null, aligned address of a `T` with a [`Tag`].
///
/// Invariants (see [`TagPtr::wf`]): the word is non-zero; its address bits are
/// non-zero and, being what masking leaves, validly aligned for `T`; its low
/// bits are exactly the embedded tag's value. The word owns nothing: it is a
/// view, and ownership of any pointee stays with the caller.
#[verifier::reject_recursive_types(T)]
#[derive(Debug, Hash, PartialOrd, Ord)]
pub struct TagPtr<T> {
    raw: usize,
    _marker: PhantomData<T>,
}

impl<T> View for TagPtr<T> {
    type V = usize;

    closed spec fn view(&self) -> usize {
        self.raw
    }
}

impl<T> TagPtr<T> {
    /// The invariant of every constructed tagged pointer: the address bits are
    /// non-zero (alignment of the address and validity of the tag half hold of
    /// any word by masking alone).
    pub open spec fn wf(self) -> bool {
        self@ & spec_ptr_mask::<T>() != 0
    }

    /// The address half: the raw word with the tag bits cleared.
    pub open spec fn spec_addr(self) -> usize {
        self@ & spec_ptr_mask::<T>()
    }

    /// The tag half: the raw word with the address bits cleared.
    pub open spec fn spec_tag(self) -> usize {
        self@ & spec_tag_mask::<T>()
    }

    /// The word that packing an address with a tag yields.
    pub closed spec fn spec_new(addr: usize, tag: usize) -> TagPtr<T> {
        TagPtr { raw: addr | tag, _marker: PhantomData }
    }

    /// The result of replacing the tag and keeping the address.
    pub open spec fn spec_with_tag(self, tag: usize) -> TagPtr<T> {
        Self::spec_new(self.spec_addr(), tag)
    }

    /// The result of replacing the address and keeping the tag.
    pub open spec fn spec_with_ptr(self, addr: usize) -> TagPtr<T> {
        Self::spec_new(addr, self.spec_tag())
    }

    /// A non-null sentinel carrying only a tag: its address bits are the
    /// alignment of `T`, the smallest validly aligned non-zero address. It
    /// points into no allocation and must never be dereferenced.
    pub fn dangling(tag: Tag<T>) -> (r: TagPtr<T>)
        requires
            tag.wf(),
        ensures
            r == Self::spec_new(align_of::<T>() as usize, tag@),
            r@ == (align_of::<T>() as usize) | tag@,
            r.wf(),
            r.spec_addr() == align_of::<T>() as usize,
            r.spec_tag() == tag@,
    {
        let a = <T as HasLayout>::align();
        proof {
            let k = lemma_align_exponent::<T>();
            lemma_type_masks::<T>(k);
            lemma_pack(a, tag@, spec_tag_mask::<T>());
        }
        TagPtr { raw: a | tag.get(), _marker: PhantomData }
    }

    /// Pack an address with a tag. Succeeds exactly when the address is validly
    /// aligned for `T`; a misaligned address is reported with `None`, never
    /// silently truncated.
    pub fn try_new(ptr: Addr<T>, tag: Tag<T>) -> (r: Option<TagPtr<T>>)
        requires
            ptr.wf(),
            tag.wf(),
        ensures
            r is Some <==> is_aligned::<T>(ptr@),
            (r matches Some(tp) ==> {
                &&& tp == Self::spec_new(ptr@, tag@)
                &&& tp@ == ptr@ | tag@
                &&& tp.wf()
                &&& tp.spec_addr() == ptr@
                &&& tp.spec_tag() == tag@
            }),
    {
        let addr = ptr.addr();
        if addr & <T as HasLayout>::tag_mask() == 0 {
            proof {
                lemma_pack(ptr@, tag@, spec_tag_mask::<T>());
            }
            Some(TagPtr { raw: addr | tag.get(), _marker: PhantomData })
        } else {
            None
        }
    }

    /// Pack an address the caller has already shown aligned.
    pub fn new(ptr: Addr<T>, tag: Tag<T>) -> (r: TagPtr<T>)
        requires
            ptr.wf(),
            tag.wf(),
            is_aligned::<T>(ptr@),
        ensures
            r == Self::spec_new(ptr@, tag@),
            r@ == ptr@ | tag@,
            r.wf(),
            r.spec_addr() == ptr@,
            r.spec_tag() == tag@,
    {
        match Self::try_new(ptr, tag) {
            Some(tp) => tp,
            None => unreached(),
        }
    }

    /// Pack an address the caller has already shown aligned.
    pub fn new_unchecked(ptr: Addr<T>, tag: Tag<T>) -> (r: TagPtr<T>)
        requires
            ptr.wf(),
            tag.wf(),
            is_aligned::<T>(ptr@),
        ensures
            r == Self::spec_new(ptr@, tag@),
            r@ == ptr@ | tag@,
            r.wf(),
            r.spec_addr() == ptr@,
            r.spec_tag() == tag@,
    {
        Self::new(ptr, tag)
    }

    /// The raw packed word: address and tag combined.
    pub fn raw(self) -> (r: usize)
        ensures
            r == self@,
    {
        self.raw
    }

    /// The embedded tag.
    pub fn tag(self) -> (t: Tag<T>)
        ensures
            t@ == self.spec_tag(),
            t.wf(),
    {
        let v = self.raw & <T as HasLayout>::tag_mask();
        proof {
            lemma_split(self.raw, spec_tag_mask::<T>());
        }
        Tag::new_unchecked(v)
    }

    /// The untagged address: non-null and validly aligned for `T`.
    pub fn ptr(self) -> (p: Addr<T>)
        requires
            self.wf(),
        ensures
            p@ == self.spec_addr(),
            p.wf(),
            is_aligned::<T>(p@),
    {
        let a = self.raw & <T as HasLayout>::ptr_mask();
        proof {
            lemma_split(self.raw, spec_tag_mask::<T>());
        }
        Addr::new_unchecked(a)
    }

    /// A new tagged pointer with the same address and the given tag.
    pub fn with_tag(self, tag: Tag<T>) -> (r: TagPtr<T>)
        requires
            self.wf(),
            tag.wf(),
        ensures
            r == self.spec_with_tag(tag@),
            r.wf(),
            r.spec_addr() == self.spec_addr(),
            r.spec_tag() == tag@,
    {
        Self::new_unchecked(self.ptr(), tag)
    }

    /// A new tagged pointer with the given (aligned) address and the same tag.
    pub fn with_ptr(self, ptr: Addr<T>) -> (r: TagPtr<T>)
        requires
            self.wf(),
            ptr.wf(),
            is_aligned::<T>(ptr@),
        ensures
            r == self.spec_with_ptr(ptr@),
            r.wf(),
            r.spec_addr() == ptr@,
            r.spec_tag() == self.spec_tag(),
    {
        Self::new_unchecked(ptr, self.tag())
    }

    /// Replace the tag in place, keeping the address.
    pub fn set_tag(&mut self, tag: Tag<T>)
        requires
            old(self).wf(),
            tag.wf(),
        ensures
            *final(self) == old(self).spec_with_tag(tag@),
            final(self).wf(),
            final(self).spec_addr() == old(self).spec_addr(),
            final(self).spec_tag() == tag@,
    {
        *self = self.with_tag(tag);
    }

    /// Replace the address in place, keeping the tag.
    pub fn set_ptr(&mut self, ptr: Addr<T>)
        requires
            old(self).wf(),
            ptr.wf(),
            is_aligned::<T>(ptr@),
        ensures
            *final(self) == old(self).spec_with_ptr(ptr@),
            final(self).wf(),
            final(self).spec_addr() == ptr@,
            final(self).spec_tag() == old(self).spec_tag(),
    {
        *self = self.with_ptr(ptr);
    }
}

/// Round trip: packing any non-null, validly aligned address with any valid
/// tag yields a well-formed word from which both halves are recovered exactly.
pub proof fn lemma_round_trip<T>(addr: usize, tag: usize)
    requires
        addr != 0,
        is_aligned::<T>(addr),
        Tag::<T>::spec_is_valid(tag),
    ensures
        TagPtr::<T>::spec_new(addr, tag).wf(),
        TagPtr::<T>::spec_new(addr, tag).spec_addr() == addr,
        TagPtr::<T>::spec_new(addr, tag).spec_tag() == tag,
{
    lemma_pack(addr, tag, spec_tag_mask::<T>());
}

/// Idempotence: writing back a tagged pointer's own tag, or its own address,
/// reproduces it exactly.
pub proof fn lemma_update_identity<T>(tp: TagPtr<T>)
    requires
        tp.wf(),
    ensures
        tp.spec_with_tag(tp.spec_tag()) == tp,
        tp.spec_with_ptr(tp.spec_addr()) == tp,
{
    lemma_split(tp@, spec_tag_mask::<T>());
}

impl<T> Clone for TagPtr<T> {
    fn clone(&self) -> (r: Self)
        ensures
            r == *self,
    {
        *self
    }
}

impl<T> Copy for TagPtr<T> {}

impl<T> PartialEq for TagPtr<T> {
    fn eq(&self, other: &Self) -> (r: bool) {
        self.raw == other.raw
    }
}

impl<T> vstd::std_specs::cmp::PartialEqSpecImpl for TagPtr<T> {
    open spec fn obeys_eq_spec() -> bool {
        true
    }

    open spec fn eq_spec(&self, other: &Self) -> bool {
        self@ == other@
    }
}

impl<T> Eq for TagPtr<T> {}

} // verus!
