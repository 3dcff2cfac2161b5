//! The allocator registry: registration, lookup and release.

use zustdpipe::registry::MemoryRegistry;

#[test]
fn allocate_then_validate_reports_each_size() {
    let mut reg = MemoryRegistry::new();
    let sizes: Vec<u32> = vec![4, 0, 16, 1, 255];
    let mut ptrs: Vec<u32> = Vec::new();
    for s in &sizes {
        let p = reg.allocate(*s);
        assert!(p != 0);
        ptrs.push(p);
    }
    for (p, s) in ptrs.iter().zip(sizes.iter()) {
        assert_eq!(reg.validate_pointer(*p), *s as usize);
    }
    for (p, s) in ptrs.iter().zip(sizes.iter()) {
        assert_eq!(reg.deallocate(*p), 0);
        assert_eq!(reg.validate_pointer(*p), 0, "freed pointer of size {} must report 0", s);
    }
}

#[test]
fn allocate_returns_distinct_nonzero_pointers() {
    let mut reg = MemoryRegistry::new();
    let a = reg.allocate(8);
    let b = reg.allocate(8);
    let c = reg.allocate(0);
    assert!(a != 0 && b != 0 && c != 0);
    assert!(a != b && b != c && a != c);
}

#[test]
fn deallocate_unknown_pointer_is_a_noop() {
    let mut reg = MemoryRegistry::new();
    let p = reg.allocate(3);
    assert_eq!(reg.deallocate(12345), -1);
    // the registered allocation is untouched
    assert_eq!(reg.validate_pointer(p), 3);
    assert_eq!(reg.deallocate(0), -1);
    assert_eq!(reg.deallocate(p), 0);
    // a second release of the same pointer reports the error code
    assert_eq!(reg.deallocate(p), -1);
}

#[test]
fn write_and_read_buffer_round_trip() {
    let mut reg = MemoryRegistry::new();
    let p = reg.allocate(4);
    let data: Vec<u8> = vec![0xde, 0xad, 0xbe, 0xef];
    assert!(reg.write_buffer(p, &data));
    assert_eq!(reg.read_buffer(p), Some(data.clone()));
    // a fresh allocation reads back as zeroes
    let q = reg.allocate(2);
    assert_eq!(reg.read_buffer(q), Some(vec![0, 0]));
    // a length mismatch is refused
    assert!(!reg.write_buffer(q, &data));
    assert_eq!(reg.read_buffer(q), Some(vec![0, 0]));
    // an unknown pointer reads back as nothing
    assert_eq!(reg.read_buffer(777), None);
}
