//! The host side of the protocol, run against a real module.
//!
//! The module under test is a minimal text-format module that
//! implements the ABI: a bump allocator behind `wasm_allocate`, a
//! `wasm_deallocate` that always reports success, and a
//! `raw_process_entry` that echoes its data payload.

use zustdpipe::errors::LibraryDefinitionError;
use zustdpipe::errors::LibraryInstanceError;
use zustdpipe::wasm::WASMLibraryManager;

const ECHO_MODULE: &str = "
(module
  (memory (export \"memory\") 1)
  (global $next (mut i32) (i32.const 16))
  (func $alloc (export \"wasm_allocate\") (param $size i32) (result i32)
    (local $ptr i32)
    global.get $next
    local.set $ptr
    global.get $next
    local.get $size
    i32.add
    global.set $next
    local.get $ptr)
  (func (export \"wasm_deallocate\") (param $ptr i32) (result i32)
    i32.const 0)
  (func (export \"raw_process_entry\")
        (param $mp i32) (param $ml i32) (param $dp i32) (param $dl i32)
        (result i32)
    (local $res i32) (local $desc i32)
    local.get $dl
    call $alloc
    local.set $res
    local.get $res
    local.get $dp
    local.get $dl
    memory.copy
    i32.const 8
    call $alloc
    local.set $desc
    local.get $desc
    local.get $res
    i32.store
    local.get $desc
    i32.const 4
    i32.add
    local.get $dl
    i32.store
    local.get $desc))
";

fn echo_bytes() -> Vec<u8> {
    ECHO_MODULE.as_bytes().to_vec()
}

#[test]
fn exec_func_round_trips_the_payload_through_the_module() {
    let mut mgr = WASMLibraryManager::new();
    let mut lib = mgr
        .get_instance_from_bytes(&"echo".to_string(), &echo_bytes())
        .expect("the module compiles and instantiates");
    assert_eq!(lib.path, "echo");
    let meta: Vec<u8> = vec![0xaa, 0xbb];
    let data: Vec<u8> = vec![0x01, 0x02, 0x03];
    let result = lib.exec_func(meta, data).expect("the call succeeds");
    assert_eq!(result, vec![0x01, 0x02, 0x03]);
}

#[test]
fn exec_func_accepts_empty_inputs_and_yields_an_empty_result() {
    let mut mgr = WASMLibraryManager::new();
    let mut lib = mgr
        .get_instance_from_bytes(&"echo".to_string(), &echo_bytes())
        .expect("the module compiles and instantiates");
    // empty metadata and data still make the full protocol round trip;
    // the guest answers with a zero-length result descriptor and the
    // host hands back an empty buffer with no deallocation error
    let result = lib.exec_func(Vec::new(), Vec::new()).expect("the call succeeds");
    assert_eq!(result, Vec::<u8>::new());
}

#[test]
fn stage_output_feeds_the_next_stage_unchanged() {
    let mut mgr = WASMLibraryManager::new();
    let first: Vec<u8> = vec![0x10, 0x20, 0x30, 0x40];
    // stage 1 on an empty payload chain start
    let mut lib1 = mgr
        .get_instance_from_bytes(&"echo".to_string(), &echo_bytes())
        .expect("stage 1 instantiates");
    let out1 = lib1.exec_func(Vec::new(), first.clone()).expect("stage 1 succeeds");
    // stage 2 receives exactly the bytes stage 1 returned
    let mut lib2 = mgr
        .get_instance_from_bytes(&"echo".to_string(), &echo_bytes())
        .expect("stage 2 instantiates");
    let out2 = lib2.exec_func(Vec::new(), out1.clone()).expect("stage 2 succeeds");
    assert_eq!(out1, first);
    assert_eq!(out2, first);
}

#[test]
fn repeated_instantiation_and_calls_keep_working() {
    let mut mgr = WASMLibraryManager::new();
    for round in 0u8..8 {
        let mut lib = mgr
            .get_instance_from_bytes(&"echo".to_string(), &echo_bytes())
            .expect("every round instantiates afresh");
        let result = lib.exec_func(vec![round], vec![round, round]).expect("call succeeds");
        assert_eq!(result, vec![round, round]);
    }
}

const BARE_MODULE: &str = "(module (memory (export \"memory\") 1))";

const REFUSING_MODULE: &str = "
(module
  (memory (export \"memory\") 1)
  (global $next (mut i32) (i32.const 16))
  (func (export \"wasm_allocate\") (param $size i32) (result i32)
    (local $ptr i32)
    global.get $next
    local.set $ptr
    global.get $next
    local.get $size
    i32.add
    global.set $next
    local.get $ptr)
  (func (export \"wasm_deallocate\") (param $ptr i32) (result i32)
    i32.const 0)
  (func (export \"raw_process_entry\")
        (param $mp i32) (param $ml i32) (param $dp i32) (param $dl i32)
        (result i32)
    i32.const 0))
";

const WILD_DESCRIPTOR_MODULE: &str = "
(module
  (memory (export \"memory\") 1)
  (global $next (mut i32) (i32.const 16))
  (func $alloc (export \"wasm_allocate\") (param $size i32) (result i32)
    (local $ptr i32)
    global.get $next
    local.set $ptr
    global.get $next
    local.get $size
    i32.add
    global.set $next
    local.get $ptr)
  (func (export \"wasm_deallocate\") (param $ptr i32) (result i32)
    i32.const 0)
  (func (export \"raw_process_entry\")
        (param $mp i32) (param $ml i32) (param $dp i32) (param $dl i32)
        (result i32)
    (local $desc i32)
    i32.const 8
    call $alloc
    local.set $desc
    local.get $desc
    i32.const 70000
    i32.store
    local.get $desc
    i32.const 4
    i32.add
    i32.const 16
    i32.store
    local.get $desc))
";

fn call_error(module_text: &str) -> LibraryInstanceError {
    let mut mgr = WASMLibraryManager::new();
    let mut lib = mgr
        .get_instance_from_bytes(&"m".to_string(), &module_text.as_bytes().to_vec())
        .expect("the module compiles and instantiates");
    match lib.exec_func(Vec::new(), Vec::new()) {
        Err(e) => e,
        Ok(_) => panic!("expected the call to fail"),
    }
}

#[test]
fn a_module_without_the_abi_exports_fails_the_call() {
    let LibraryInstanceError::InstantiationError(e) = call_error(BARE_MODULE);
    assert_eq!(e.message(), "Cannot allocate module memory for meta data");
}

#[test]
fn a_zero_return_from_the_entry_is_an_error() {
    let LibraryInstanceError::InstantiationError(e) = call_error(REFUSING_MODULE);
    assert_eq!(e.message(), "Invalid return code.");
}

#[test]
fn a_descriptor_pointing_outside_memory_is_a_protocol_error() {
    let LibraryInstanceError::InstantiationError(e) = call_error(WILD_DESCRIPTOR_MODULE);
    assert_eq!(e.message(), "Invalid result descriptor from module.");
}

#[test]
// Test a minimal valid WASM app
fn test_new_minimal_valid_wasm() {
    let mut libmgr: WASMLibraryManager = WASMLibraryManager::new();
    let result_simple_library = libmgr
        .get_instance_from_bytes(&"simple".to_string(), &echo_bytes())
        .expect("the module compiles and instantiates");
    assert_eq!(result_simple_library.path, "simple");
}

#[test]
// Test calling a minimal function
fn test_new_minimal_call() {
    let mut libmgr: WASMLibraryManager = WASMLibraryManager::new();
    let mut result_simple_library = libmgr
        .get_instance_from_bytes(&"simple".to_string(), &echo_bytes())
        .expect("the module compiles and instantiates");
    assert_eq!(&result_simple_library.path, "simple");
    let param: Vec<u8> = Vec::new();
    let _result_func = result_simple_library.exec_func(param, Vec::new());
}

#[test]
fn a_module_file_that_does_not_exist_is_reported() {
    let mut mgr = WASMLibraryManager::new();
    let err = match mgr.get_instance(&"/zustdpipe-no-such-module-for-tests.wasm".to_string()) {
        Err(e) => e,
        Ok(_) => panic!("expected a loading error"),
    };
    let LibraryDefinitionError::ModuleSpecificError(e) = err;
    assert!(
        e.message().starts_with("WASM Library Manager. Error during loading module: "),
        "unexpected message: {}",
        e.message()
    );
}

#[test]
fn malformed_module_bytes_are_reported() {
    let mut mgr = WASMLibraryManager::new();
    let err = match mgr.get_instance_from_bytes(&"broken".to_string(), &vec![0x00, 0x01, 0x02]) {
        Err(e) => e,
        Ok(_) => panic!("expected a loading error"),
    };
    let LibraryDefinitionError::ModuleSpecificError(e) = err;
    assert!(e.message().starts_with("WASM Library Manager. Error during loading module: "));
}
