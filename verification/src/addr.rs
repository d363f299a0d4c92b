//! A non-null address of a `T`: the plain-value stand-in for a pointer.
//!
//! The tagging core works on numeric addresses alone. The caller keeps the real
//! pointer (and with it the provenance of its allocation) and re-attaches the
//! untagged address to that pointer when it wants to dereference again.

use core::marker::PhantomData;
use vstd::prelude::*;

verus! {

/// A non-null address of a `T`.
///
/// Owns nothing and is freely copied; whether anything valid lives at the
/// address is the caller's business.
#[verifier::reject_recursive_types(T)]
#[derive(Debug, Hash, PartialOrd, Ord)]
pub struct Addr<T> {
    addr: usize,
    _marker: PhantomData<T>,
}

impl<T> View for Addr<T> {
    type V = usize;

    closed spec fn view(&self) -> usize {
        self.addr
    }
}

impl<T> Addr<T> {
    /// Every address is non-null.
    pub open spec fn wf(self) -> bool {
        self@ != 0
    }

    /// Wrap a numeric address; `None` for the null address.
    pub fn new(addr: usize) -> (r: Option<Addr<T>>)
        ensures
            r is Some <==> addr != 0,
            (r matches Some(a) ==> a@ == addr && a.wf()),
    {
        if addr != 0 {
            Some(Addr { addr, _marker: PhantomData })
        } else {
            None
        }
    }

    /// Wrap a numeric address known to be non-null.
    pub fn new_unchecked(addr: usize) -> (r: Addr<T>)
        requires
            addr != 0,
        ensures
            r@ == addr,
            r.wf(),
    {
        Addr { addr, _marker: PhantomData }
    }

    /// The numeric address.
    pub fn addr(self) -> (r: usize)
        ensures
            r == self@,
    {
        self.addr
    }
}

impl<T> Clone for Addr<T> {
    fn clone(&self) -> (r: Self)
        ensures
            r == *self,
    {
        *self
    }
}

impl<T> Copy for Addr<T> {}

impl<T> PartialEq for Addr<T> {
    fn eq(&self, other: &Self) -> (r: bool) {
        self.addr == other.addr
    }
}

impl<T> vstd::std_specs::cmp::PartialEqSpecImpl for Addr<T> {
    open spec fn obeys_eq_spec() -> bool {
        true
    }

    open spec fn eq_spec(&self, other: &Self) -> bool {
        self@ == other@
    }
}

impl<T> Eq for Addr<T> {}

} // verus!
