//! The result descriptor and the guest-side protocol model.

use zustdpipe::abi::decode_descriptor;
use zustdpipe::abi::encode_descriptor;
use zustdpipe::guest::model_pipeline;
use zustdpipe::guest::model_stage;
use zustdpipe::guest::raw_process_entry;
use zustdpipe::guest::read_allocated;
use zustdpipe::guest::store_result;
use zustdpipe::guest::EchoProcess;
use zustdpipe::registry::MemoryRegistry;

#[test]
fn descriptor_encodes_little_endian() {
    let d = encode_descriptor(0x01020304, 0x0a0b0c0d);
    assert_eq!(d, vec![0x04, 0x03, 0x02, 0x01, 0x0d, 0x0c, 0x0b, 0x0a]);
    let (ptr, len) = decode_descriptor(&d);
    assert_eq!(ptr, 0x01020304);
    assert_eq!(len, 0x0a0b0c0d);
}

#[test]
fn descriptor_round_trips_edge_values() {
    for (p, l) in [(0u32, 0u32), (u32::MAX, 1), (1, u32::MAX), (0x80000000, 0x7fffffff)] {
        let d = encode_descriptor(p, l);
        assert_eq!(decode_descriptor(&d), (p, l));
    }
}

#[test]
fn echo_process_returns_its_payload() {
    let p = EchoProcess::new();
    assert_eq!(p.execute(vec![1, 2, 3]), Some(vec![1, 2, 3]));
    assert_eq!(p.execute(Vec::new()), Some(Vec::new()));
}

#[test]
fn store_result_registers_descriptor_and_bytes() {
    let mut reg = MemoryRegistry::new();
    let data: Vec<u8> = vec![9, 8, 7];
    let desc_ptr = store_result(&mut reg, &data);
    assert!(desc_ptr != 0);
    let desc = reg.read_buffer(desc_ptr).expect("descriptor is registered");
    let (ptr, len) = decode_descriptor(&desc);
    assert_eq!(len, 3);
    assert_eq!(reg.read_buffer(ptr), Some(data));
    // the host releases both without error
    assert_eq!(reg.deallocate(desc_ptr), 0);
    assert_eq!(reg.deallocate(ptr), 0);
}

#[test]
fn entry_echoes_the_data_payload() {
    let mut reg = MemoryRegistry::new();
    let meta: Vec<u8> = vec![1];
    let data: Vec<u8> = vec![0x01, 0x02, 0x03];
    let meta_ptr = reg.allocate(1);
    let data_ptr = reg.allocate(3);
    assert!(reg.write_buffer(meta_ptr, &meta));
    assert!(reg.write_buffer(data_ptr, &data));
    let desc_ptr = raw_process_entry(&mut reg, meta_ptr, 1, data_ptr, 3);
    assert!(desc_ptr != 0);
    let desc = reg.read_buffer(desc_ptr).expect("descriptor is registered");
    let (res_ptr, res_len) = decode_descriptor(&desc);
    assert_eq!(res_len, 3);
    assert_eq!(reg.read_buffer(res_ptr), Some(data));
}

#[test]
fn entry_accepts_empty_inputs_and_yields_empty_result() {
    let mut reg = MemoryRegistry::new();
    let meta_ptr = reg.allocate(0);
    let data_ptr = reg.allocate(0);
    let desc_ptr = raw_process_entry(&mut reg, meta_ptr, 0, data_ptr, 0);
    assert!(desc_ptr != 0);
    let desc = reg.read_buffer(desc_ptr).expect("descriptor is registered");
    let (res_ptr, res_len) = decode_descriptor(&desc);
    // an empty payload yields an empty result buffer, and releasing it
    // still succeeds
    assert_eq!(res_len, 0);
    assert_eq!(reg.read_buffer(res_ptr), Some(Vec::new()));
    assert_eq!(reg.deallocate(res_ptr), 0);
    assert_eq!(reg.deallocate(desc_ptr), 0);
}

#[test]
fn entry_rejects_a_range_that_is_not_registered() {
    let mut reg = MemoryRegistry::new();
    let data_ptr = reg.allocate(3);
    // meta pointer 500 was never allocated
    assert_eq!(raw_process_entry(&mut reg, 500, 1, data_ptr, 3), 0);
    // stated length disagrees with the recorded size
    assert_eq!(raw_process_entry(&mut reg, data_ptr, 2, data_ptr, 3), 0);
}

#[test]
fn model_stage_returns_its_payload() {
    let payload: Vec<u8> = vec![1, 2, 3];
    assert_eq!(model_stage(&payload), Some(payload));
    assert_eq!(model_stage(&Vec::new()), Some(Vec::new()));
}

#[test]
fn model_pipeline_threads_the_payload_through_every_stage() {
    let payload: Vec<u8> = vec![0x10, 0x20, 0x30];
    assert_eq!(model_pipeline(&payload, 0), Some(payload.clone()));
    assert_eq!(model_pipeline(&payload, 1), Some(payload.clone()));
    assert_eq!(model_pipeline(&payload, 5), Some(payload));
    assert_eq!(model_pipeline(&Vec::new(), 3), Some(Vec::new()));
}

#[test]
fn read_allocated_checks_pointer_and_size() {
    let mut reg = MemoryRegistry::new();
    let p = reg.allocate(2);
    assert_eq!(read_allocated(&reg, p, 2), Some(vec![0, 0]));
    assert_eq!(read_allocated(&reg, p, 3), None);
    assert_eq!(read_allocated(&reg, 99, 2), None);
}
