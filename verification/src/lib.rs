//! Pointer tagging: packing a small integer into the low, alignment-guaranteed
//! zero bits of an address, so one machine word carries both a pointer and a
//! few bits of metadata.
//!
//! The crate works on plain addresses (`usize` words): the [`addr::Addr`] type
//! stands for a non-null address of a `T`, and [`tag_ptr::TagPtr`] fuses such
//! an address with a [`tag_ptr::Tag`]. Turning a real pointer into an address
//! and back (and keeping its provenance) is the caller's business; the packing,
//! unpacking and masking arithmetic here is verified.

pub mod addr;
pub mod layout;
pub mod raw;
pub mod tag_ptr;
