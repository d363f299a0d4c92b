//! Data-layout sketch of a reference-counted shared buffer: the kind of
//! consumer the tagging core is built for. Only the shapes are given here;
//! allocation, reference counting and growth logic are a consumer's business.

use crate::tag_ptr::TagPtr;
use vstd::atomic::PAtomicUsize;
use vstd::prelude::*;

verus! {

/// Header of a shared buffer: bookkeeping fields followed by the inline data.
pub struct Header<T> {
    /// Capacity of the buffer, in elements.
    pub cap: usize,
    /// Number of initialised elements.
    pub len: usize,
    /// Reference count, shared between handles.
    pub ref_count: PAtomicUsize,
    /// Start of the data region that follows the header in the allocation.
    pub data: [T; 0],
}

/// Handle to the data region of a shared buffer.
#[verifier::reject_recursive_types(T)]
pub struct Data<T> {
    /// Although typed as a tagged pointer to `Header<T>`, the address held is
    /// that of the `data` field inside the header's allocation.
    #[allow(dead_code)]
    ptr: TagPtr<Header<T>>,
}

} // verus!

