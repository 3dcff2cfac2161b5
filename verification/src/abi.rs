//! The result descriptor of the host protocol.
//!
//! A module's process entry returns a pointer to an 8-byte descriptor in
//! its linear memory: two little-endian 4-byte fields, the pointer to
//! the result buffer followed by the length of that buffer.  Both the
//! descriptor and the buffer come from the module's own allocator, so
//! the host releases both after reading them.

use vstd::bytes::lemma_auto_spec_u32_to_from_le_bytes;
use vstd::bytes::spec_u32_from_le_bytes;
use vstd::bytes::spec_u32_to_le_bytes;
use vstd::bytes::u32_from_le_bytes;
use vstd::bytes::u32_to_le_bytes;
use vstd::prelude::*;

verus! {

/// The byte length of a result descriptor.
pub const DESCRIPTOR_LEN: usize = 8;

/// The wire form of a descriptor: pointer then length, little-endian.
pub open spec fn spec_descriptor(ptr: u32, len: u32) -> Seq<u8> {
    spec_u32_to_le_bytes(ptr) + spec_u32_to_le_bytes(len)
}

/// The pointer field of descriptor bytes.
pub open spec fn spec_descriptor_ptr(bytes: Seq<u8>) -> u32
    recommends
        bytes.len() == 8,
{
    spec_u32_from_le_bytes(bytes.subrange(0, 4))
}

/// The length field of descriptor bytes.
pub open spec fn spec_descriptor_len(bytes: Seq<u8>) -> u32
    recommends
        bytes.len() == 8,
{
    spec_u32_from_le_bytes(bytes.subrange(4, 8))
}

/// Build the 8 descriptor bytes for a result at `ptr` of `len` bytes.
pub fn encode_descriptor(ptr: u32, len: u32) -> (r: Vec<u8>)
    ensures
        r@ == spec_descriptor(ptr, len),
        r@.len() == 8,
        spec_descriptor_ptr(r@) == ptr,
        spec_descriptor_len(r@) == len,
{
    proof {
        lemma_auto_spec_u32_to_from_le_bytes();
    }
    let mut r = u32_to_le_bytes(ptr);
    let mut l = u32_to_le_bytes(len);
    r.append(&mut l);
    proof {
        assert(r@.subrange(0, 4) =~= spec_u32_to_le_bytes(ptr));
        assert(r@.subrange(4, 8) =~= spec_u32_to_le_bytes(len));
    }
    r
}

/// Split descriptor bytes into the (pointer, length) pair they encode.
pub fn decode_descriptor(bytes: &[u8]) -> (r: (u32, u32))
    requires
        bytes@.len() == 8,
    ensures
        r.0 == spec_descriptor_ptr(bytes@),
        r.1 == spec_descriptor_len(bytes@),
        bytes@ == spec_descriptor(r.0, r.1),
{
    proof {
        lemma_auto_spec_u32_to_from_le_bytes();
    }
    let ptr = u32_from_le_bytes(vstd::slice::slice_subrange(bytes, 0, 4));
    let len = u32_from_le_bytes(vstd::slice::slice_subrange(bytes, 4, 8));
    proof {
        assert(bytes@ =~= spec_descriptor(ptr, len));
    }
    (ptr, len)
}

/// Decoding inverts encoding: the descriptor for `(ptr, len)` always
/// reads back as exactly `(ptr, len)`.
pub proof fn lemma_descriptor_roundtrip(ptr: u32, len: u32)
    ensures
        spec_descriptor(ptr, len).len() == 8,
        spec_descriptor_ptr(spec_descriptor(ptr, len)) == ptr,
        spec_descriptor_len(spec_descriptor(ptr, len)) == len,
{
    lemma_auto_spec_u32_to_from_le_bytes();
    assert(spec_descriptor(ptr, len).subrange(0, 4) =~= spec_u32_to_le_bytes(ptr));
    assert(spec_descriptor(ptr, len).subrange(4, 8) =~= spec_u32_to_le_bytes(len));
}

} // verus!
