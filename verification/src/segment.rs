//! Layout of the shared-memory object.
//!
//! The kernel object holds two regions. The metadata region, at file
//! offset 0 and of fixed size `META_SIZE`, stores only the current
//! payload length as a `u64`; every process re-derives its own payload
//! mapping, so no process-local address is ever placed in shared memory.
//! The payload region starts at file offset `META_SIZE` and holds the
//! serialized bytes of the current value, so the object is always
//! `META_SIZE` plus the payload length bytes long.

use vstd::prelude::*;

verus! {

/// The size in bytes of the metadata region: one `u64`, the payload
/// length.
pub const META_SIZE: u64 = 8;

/// Whether a payload of this length fits in a kernel object together
/// with the metadata region.
pub open spec fn fits_object(payload_len: u64) -> bool {
    payload_len <= u64::MAX - META_SIZE
}

/// Whether a payload of this length fits in a kernel object together
/// with the metadata region.
pub fn payload_fits(payload_len: u64) -> (r: bool)
    ensures
        r == fits_object(payload_len),
    {
    payload_len <= u64::MAX - META_SIZE
}

/// The total length of the kernel object for a payload of the given
/// length: the metadata region followed by the payload region.
pub fn total_object_len(payload_len: u64) -> (r: u64)
    requires
        fits_object(payload_len),
    ensures
        r == META_SIZE + payload_len,
    {
    META_SIZE + payload_len
}

/// How a rewrite of the payload reshapes the kernel object.
#[derive(Clone, Copy, PartialEq, Eq, Structural, Debug)]
pub enum RewriteDecision {
    /// The new payload has the current length: overwrite in place.
    InPlace,
    /// The length changes: resize the object to the new total length
    /// and remap the payload region before writing.
    Resize { new_total: u64 },
}

/// The resize decision of a rewrite, from the current payload length and
/// the length of the new serialization.
pub fn rewrite_decision(current_size: u64, new_len: u64) -> (r: RewriteDecision)
    requires
        fits_object(new_len),
    ensures
        new_len == current_size ==> r == RewriteDecision::InPlace,
        new_len != current_size ==> r == (RewriteDecision::Resize {
            new_total: (META_SIZE + new_len) as u64,
        }),
    {
    if new_len == current_size {
        RewriteDecision::InPlace
    } else {
        RewriteDecision::Resize { new_total: META_SIZE + new_len }
    }
}

} // verus!
