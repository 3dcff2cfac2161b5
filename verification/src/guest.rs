//! A model of the guest side of the host protocol.
//!
//! Inside a module, the process entry receives two (pointer, length)
//! ranges naming buffers that the host filled through the allocator
//! registry, runs the module's logic on them, and hands the result back
//! as a freshly allocated buffer described by a freshly allocated
//! 8-byte descriptor.  This module carries that logic out against the
//! [`MemoryRegistry`], with the echo process as the module logic.

use crate::abi::decode_descriptor;
use crate::abi::encode_descriptor;
use crate::abi::spec_descriptor_len;
use crate::abi::spec_descriptor_ptr;
use crate::registry::lookup_size;
use crate::registry::MemoryRegistry;
use vstd::prelude::*;

verus! {

/// A process that hands its data payload back unchanged.
pub struct EchoProcess {}

impl EchoProcess {
    pub fn new() -> (r: EchoProcess) {
        EchoProcess {  }
    }

    /// Run the process: the result is exactly the input payload.
    pub fn execute(&self, data: Vec<u8>) -> (r: Option<Vec<u8>>)
        ensures
            r is Some,
            r->Some_0@ == data@,
    {
        Some(data)
    }
}

/// Whether `m` holds, at `desc_ptr`, a well-formed result: an 8-byte
/// descriptor whose pointer field names another registered buffer of
/// exactly the length the length field states.
pub open spec fn result_stored(m: Map<u32, Seq<u8>>, desc_ptr: u32) -> bool {
    &&& m.dom().contains(desc_ptr)
    &&& m[desc_ptr].len() == 8
    &&& m.dom().contains(spec_descriptor_ptr(m[desc_ptr]))
    &&& m[spec_descriptor_ptr(m[desc_ptr])].len() == spec_descriptor_len(m[desc_ptr])
}

/// The result bytes a well-formed descriptor at `desc_ptr` points to.
pub open spec fn stored_result(m: Map<u32, Seq<u8>>, desc_ptr: u32) -> Seq<u8> {
    m[spec_descriptor_ptr(m[desc_ptr])]
}

/// Whether the two input ranges the host handed to the entry name live
/// allocations of exactly the stated sizes.
pub open spec fn entry_inputs_valid(
    m: Map<u32, Seq<u8>>,
    meta_ptr: u32,
    meta_len: u32,
    data_ptr: u32,
    data_len: u32,
) -> bool {
    &&& m.dom().contains(meta_ptr) && m[meta_ptr].len() == meta_len
    &&& m.dom().contains(data_ptr) && m[data_ptr].len() == data_len
}

/// Read the whole buffer a (pointer, length) range names, the guest's
/// check before it parses a byte range the host handed over: the range
/// is valid exactly when `ptr` is a live allocation whose recorded size
/// is `len`.
pub fn read_allocated(reg: &MemoryRegistry, ptr: u32, len: u32) -> (r: Option<Vec<u8>>)
    requires
        reg.wf(),
    ensures
        r is Some <==> reg@.dom().contains(ptr) && reg@[ptr].len() == len,
        r is Some ==> r->Some_0@ == reg@[ptr],
{
    let size = reg.validate_pointer(ptr);
    match reg.read_buffer(ptr) {
        Some(buf) => {
            if buf.len() == len as usize {
                Some(buf)
            } else {
                None
            }
        },
        None => None,
    }
}

/// Store `data` as the result of a process call: allocate a buffer for
/// the bytes, fill it, allocate a descriptor naming it, and return the
/// descriptor's pointer.  It returns `0` exactly when the allocator
/// cannot fit the buffer and the descriptor (the cursor would pass the
/// address space); on success the registry grows by exactly those two
/// registrations.  Already-registered buffers are never touched.
pub fn store_result(reg: &mut MemoryRegistry, data: &Vec<u8>) -> (desc_ptr: u32)
    requires
        old(reg).wf(),
        data@.len() <= u32::MAX,
    ensures
        final(reg).wf(),
        desc_ptr == 0 <==> old(reg).spec_cursor() + data@.len() + 10 > u32::MAX,
        desc_ptr != 0 ==> result_stored(final(reg)@, desc_ptr),
        desc_ptr != 0 ==> stored_result(final(reg)@, desc_ptr) == data@,
        desc_ptr != 0 ==> !old(reg)@.dom().contains(desc_ptr),
        desc_ptr != 0 ==> final(reg)@ == old(reg)@.insert(
            spec_descriptor_ptr(final(reg)@[desc_ptr]),
            data@,
        ).insert(
            desc_ptr,
            crate::abi::spec_descriptor(spec_descriptor_ptr(final(reg)@[desc_ptr]), data@.len() as u32),
        ),
        desc_ptr != 0 ==> final(reg).spec_cursor() == old(reg).spec_cursor() + data@.len() + 10,
        forall|q: u32|
            #[trigger] old(reg)@.dom().contains(q) ==> final(reg)@.dom().contains(q)
                && final(reg)@[q] == old(reg)@[q],
{
    let len: u32 = data.len() as u32;
    let data_ptr = reg.allocate(len);
    if data_ptr == 0 {
        return 0;
    }
    let wrote_data = reg.write_buffer(data_ptr, data);
    assert(wrote_data);
    let desc = encode_descriptor(data_ptr, len);
    let desc_ptr = reg.allocate(8);
    if desc_ptr == 0 {
        return 0;
    }
    let wrote_desc = reg.write_buffer(desc_ptr, &desc);
    assert(wrote_desc);
    proof {
        crate::abi::lemma_descriptor_roundtrip(data_ptr, len);
        assert(final(reg)@[desc_ptr] == desc@);
        assert(spec_descriptor_ptr(desc@) == data_ptr);
        assert(final(reg)@[data_ptr] == data@);
        assert(final(reg)@ =~= old(reg)@.insert(data_ptr, data@).insert(desc_ptr, desc@));
    }
    desc_ptr
}

/// The raw process entry of a module built around the echo process.
///
/// Both input ranges must name live allocations of the stated sizes;
/// otherwise the entry returns `0` and leaves the registry untouched.
/// With valid inputs, `0` comes back exactly when the allocator cannot
/// fit the result and its descriptor; otherwise the returned pointer
/// names a fresh descriptor whose result bytes are exactly the data
/// payload the host wrote, those two registrations are the only
/// change, and every buffer the host allocated stays registered until
/// it deallocates it.
pub fn raw_process_entry(
    reg: &mut MemoryRegistry,
    meta_ptr: u32,
    meta_len: u32,
    data_ptr: u32,
    data_len: u32,
) -> (desc_ptr: u32)
    requires
        old(reg).wf(),
    ensures
        final(reg).wf(),
        !entry_inputs_valid(old(reg)@, meta_ptr, meta_len, data_ptr, data_len) ==> desc_ptr == 0
            && *final(reg) == *old(reg),
        entry_inputs_valid(old(reg)@, meta_ptr, meta_len, data_ptr, data_len) ==> (desc_ptr == 0
            <==> old(reg).spec_cursor() + data_len + 10 > u32::MAX),
        desc_ptr != 0 ==> result_stored(final(reg)@, desc_ptr),
        desc_ptr != 0 ==> stored_result(final(reg)@, desc_ptr) == old(reg)@[data_ptr],
        desc_ptr != 0 ==> final(reg)@ == old(reg)@.insert(
            spec_descriptor_ptr(final(reg)@[desc_ptr]),
            old(reg)@[data_ptr],
        ).insert(
            desc_ptr,
            crate::abi::spec_descriptor(spec_descriptor_ptr(final(reg)@[desc_ptr]), data_len),
        ),
        forall|q: u32|
            #[trigger] old(reg)@.dom().contains(q) ==> final(reg)@.dom().contains(q)
                && final(reg)@[q] == old(reg)@[q],
{
    let meta = match read_allocated(reg, meta_ptr, meta_len) {
        Some(m) => m,
        None => {
            return 0;
        },
    };
    let data = match read_allocated(reg, data_ptr, data_len) {
        Some(d) => d,
        None => {
            return 0;
        },
    };
    let process = EchoProcess::new();
    let result = match process.execute(data) {
        Some(r) => r,
        None => {
            return 0;
        },
    };
    store_result(reg, &result)
}

/// One full process invocation against the model guest, from the host's
/// point of view: allocate the two input buffers in a fresh registry,
/// write the (empty) metadata and the payload, call the entry, read the
/// descriptor and the result bytes it names, and release everything.
/// The stage succeeds exactly when the payload and its echo both fit
/// the fresh allocator's address space, and a result is always exactly
/// the payload that went in.
pub fn model_stage(payload: &Vec<u8>) -> (r: Option<Vec<u8>>)
    requires
        payload@.len() <= u32::MAX,
    ensures
        r is Some <==> 2 * (payload@.len() as int) + 13 <= u32::MAX,
        r is Some ==> r->Some_0@ == payload@,
{
    let mut reg = MemoryRegistry::new();
    let meta_ptr = reg.allocate(0);
    if meta_ptr == 0 {
        return None;
    }
    let data_len: u32 = payload.len() as u32;
    let data_ptr = reg.allocate(data_len);
    if data_ptr == 0 {
        return None;
    }
    let wrote = reg.write_buffer(data_ptr, payload);
    assert(wrote);
    let desc_ptr = raw_process_entry(&mut reg, meta_ptr, 0, data_ptr, data_len);
    if desc_ptr == 0 {
        return None;
    }
    let desc = match reg.read_buffer(desc_ptr) {
        Some(d) => d,
        None => {
            return None;
        },
    };
    let (res_ptr, res_len) = decode_descriptor(desc.as_slice());
    let result = match reg.read_buffer(res_ptr) {
        Some(res) => res,
        None => {
            return None;
        },
    };
    let _ = reg.deallocate(meta_ptr);
    let _ = reg.deallocate(data_ptr);
    let _ = reg.deallocate(desc_ptr);
    let _ = reg.deallocate(res_ptr);
    Some(result)
}

/// Payload threading over a pipeline of model stages: each stage
/// receives as its data payload the exact bytes the preceding stage
/// returned (the initial payload for the first), so a run of echo
/// stages of any length hands the initial payload through unchanged,
/// and succeeds whenever the payload fits a stage's address space.
pub fn model_pipeline(initial: &Vec<u8>, stages: usize) -> (r: Option<Vec<u8>>)
    requires
        initial@.len() <= u32::MAX,
    ensures
        2 * (initial@.len() as int) + 13 <= u32::MAX ==> r is Some,
        r is Some ==> r->Some_0@ == initial@,
{
    let mut payload: Vec<u8> = Vec::new();
    let mut k: usize = 0;
    while k < initial.len()
        invariant
            k <= initial@.len(),
            payload@ =~= initial@.subrange(0, k as int),
        decreases initial@.len() - k,
    {
        payload.push(initial[k]);
        k = k + 1;
    }
    assert(payload@ =~= initial@);
    let mut si: usize = 0;
    while si < stages
        invariant
            payload@ == initial@,
            initial@.len() <= u32::MAX,
        decreases stages - si,
    {
        assert(payload@.len() == initial@.len());
        payload = match model_stage(&payload) {
            Some(next) => next,
            None => {
                return None;
            },
        };
        si = si + 1;
    }
    Some(payload)
}

} // verus!
