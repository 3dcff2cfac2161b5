//! The Wasm backend: compiled-module cache, instantiation with a WASI
//! capability context, and the host side of the marshalling protocol.
//!
//! Every call into the engine goes through a small trusted wrapper whose
//! contract states what the engine's documentation promises; the
//! protocol logic around those calls is verified.

use crate::abi::decode_descriptor;
use crate::errors::GeneralError;
use crate::errors::LibraryDefinitionError;
use crate::errors::LibraryInstanceError;
use vstd::prelude::*;
use vstd::string::StringExecFns;

verus! {

#[verifier::external_type_specification]
#[verifier::external_body]
pub struct ExEngine(wasmtime::Engine);

#[verifier::external_type_specification]
#[verifier::external_body]
pub struct ExModule(wasmtime::Module);

#[verifier::external_type_specification]
#[verifier::external_body]
pub struct ExInstance(wasmtime::Instance);

#[verifier::external_type_specification]
#[verifier::external_body]
#[verifier::reject_recursive_types(T)]
pub struct ExStore<T: 'static>(wasmtime::Store<T>);

#[verifier::external_type_specification]
#[verifier::external_body]
#[verifier::reject_recursive_types(T)]
pub struct ExLinker<T>(wasmtime::Linker<T>);

#[verifier::external_type_specification]
#[verifier::external_body]
pub struct ExWasiP1Ctx(wasmtime_wasi::p1::WasiP1Ctx);

/// Relies on the `Clone` impl of `wasmtime::Module`: compiled modules
/// are shared read-only, so a clone is another handle to the same
/// compiled artifact.
pub assume_specification[ <wasmtime::Module as Clone>::clone ](
    m: &wasmtime::Module,
) -> wasmtime::Module;

/// Definition of a library: where its module binary lives.
pub struct LibraryDefinition {
    pub path: String,
}

/// Relies on wasmtime::Engine::new and wasmtime::Config: a synchronous
/// engine whose linear memories use small virtual-memory reservations,
/// so that a host with a tight address-space limit can still run
/// modules.  A config the engine refuses falls back to the default
/// engine.
#[verifier::external_body]
fn engine_default() -> wasmtime::Engine {
    let mut config = wasmtime::Config::new();
    config.memory_reservation(1 << 24);
    config.memory_guard_size(1 << 16);
    config.memory_reservation_for_growth(1 << 20);
    wasmtime::Engine::new(&config).unwrap_or_else(|_| wasmtime::Engine::default())
}

/// Relies on wasmtime::Module::from_file: reads and compiles the module
/// file, or reports the loader's message.
#[verifier::external_body]
fn module_from_file(engine: &wasmtime::Engine, path: &String) -> Result<wasmtime::Module, String> {
    wasmtime::Module::from_file(engine, path).map_err(|e| e.to_string())
}

/// Relies on wasmtime::Module::new: compiles a module from in-memory
/// bytes (binary or text format), or reports the loader's message.
#[verifier::external_body]
fn module_from_bytes(engine: &wasmtime::Engine, bytes: &Vec<u8>) -> Result<
    wasmtime::Module,
    String,
> {
    wasmtime::Module::new(engine, bytes.as_slice()).map_err(|e| e.to_string())
}

/// Relies on wasmtime::Linker::new.
#[verifier::external_body]
fn linker_new(engine: &wasmtime::Engine) -> wasmtime::Linker<wasmtime_wasi::p1::WasiP1Ctx> {
    wasmtime::Linker::new(engine)
}

/// Relies on wasmtime_wasi::p1::add_to_linker_sync: defines the WASI
/// preview-1 imports in the linker, backed by the store's context.
#[verifier::external_body]
fn wasi_add_to_linker(linker: &mut wasmtime::Linker<wasmtime_wasi::p1::WasiP1Ctx>) -> Result<
    (),
    String,
> {
    wasmtime_wasi::p1::add_to_linker_sync(linker, |t| t).map_err(|e| e.to_string())
}

/// Relies on wasmtime_wasi::WasiCtxBuilder: a context whose only ambient
/// authority is the inherited stdio and process arguments.
#[verifier::external_body]
fn wasi_ctx() -> wasmtime_wasi::p1::WasiP1Ctx {
    wasmtime_wasi::WasiCtxBuilder::new().inherit_stdio().inherit_args().build_p1()
}

/// Relies on wasmtime::Store::new.
#[verifier::external_body]
fn store_new(engine: &wasmtime::Engine, ctx: wasmtime_wasi::p1::WasiP1Ctx) -> wasmtime::Store<
    wasmtime_wasi::p1::WasiP1Ctx,
> {
    wasmtime::Store::new(engine, ctx)
}

/// Relies on wasmtime::Linker::instantiate: instantiates the module in
/// the store, or reports the linker's message.  The store is built by
/// `store_new` from a default engine, so it is synchronous and the call
/// does not panic.
#[verifier::external_body]
fn linker_instantiate(
    linker: &wasmtime::Linker<wasmtime_wasi::p1::WasiP1Ctx>,
    store: &mut wasmtime::Store<wasmtime_wasi::p1::WasiP1Ctx>,
    module: &wasmtime::Module,
) -> Result<wasmtime::Instance, String> {
    linker.instantiate(&mut *store, module).map_err(|e| e.to_string())
}

/// One instantiated module: its instance handle plus the store that owns
/// its sandboxed state and linear memory.
pub struct WASMLibrary {
    pub path: String,
    instance: wasmtime::Instance,
    store: wasmtime::Store<wasmtime_wasi::p1::WasiP1Ctx>,
}

impl WASMLibrary {
    /// The path (or name) this instance's module was loaded from.
    pub closed spec fn spec_path(&self) -> Seq<char> {
        self.path@
    }
}

/// Relies on wasmtime::Instance::get_memory: the linear memory exported
/// under `memory`, if any.  The instance was created in this store, so
/// the call does not panic.
#[verifier::external_body]
fn lib_mem_size(lib: &mut WASMLibrary) -> (r: Option<usize>)
    ensures
        final(lib).spec_path() == old(lib).spec_path(),
{
    let mem = lib.instance.get_memory(&mut lib.store, "memory")?;
    Some(mem.data_size(&lib.store))
}

/// Relies on wasmtime::Memory::write: copies `data` into the exported
/// linear memory at `offset`; out-of-bounds ranges fail and leave the
/// memory unchanged.  The instance was created in this store, so the
/// call does not panic.
#[verifier::external_body]
fn lib_mem_write(lib: &mut WASMLibrary, offset: usize, data: &Vec<u8>) -> (r: Result<(), String>)
    ensures
        final(lib).spec_path() == old(lib).spec_path(),
{
    let mem = lib.instance.get_memory(&mut lib.store, "memory").ok_or("no memory export")?;
    mem.write(&mut lib.store, offset, data.as_slice()).map_err(|e| e.to_string())
}

/// Relies on wasmtime::Memory::read: on success the returned buffer
/// holds exactly `len` bytes read from the exported linear memory at
/// `offset`; out-of-bounds ranges fail.  The instance was created in
/// this store, so the call does not panic.
#[verifier::external_body]
fn lib_mem_read(lib: &mut WASMLibrary, offset: usize, len: usize) -> (r: Result<Vec<u8>, String>)
    ensures
        final(lib).spec_path() == old(lib).spec_path(),
        r is Ok ==> r->Ok_0@.len() == len,
{
    let mem = lib.instance.get_memory(&mut lib.store, "memory").ok_or("no memory export")?;
    let mut buf: Vec<u8> = vec![0u8; len];
    mem.read(&lib.store, offset, buf.as_mut_slice()).map_err(|e| e.to_string())?;
    Ok(buf)
}

/// Relies on wasmtime::Instance::get_typed_func and TypedFunc::call:
/// calls the guest export `name` of type `u32 -> u32`.  A missing or
/// differently-typed export, and a trap, are reported as errors.  The
/// instance was created in this store, so the call does not panic.
#[verifier::external_body]
fn lib_call_u32_u32(lib: &mut WASMLibrary, name: &str, arg: u32) -> (r: Result<u32, String>)
    ensures
        final(lib).spec_path() == old(lib).spec_path(),
{
    let f = lib.instance.get_typed_func::<u32, u32>(&mut lib.store, name).map_err(
        |e| e.to_string(),
    )?;
    f.call(&mut lib.store, arg).map_err(|e| e.to_string())
}

/// Relies on wasmtime::Instance::get_typed_func and TypedFunc::call:
/// calls the guest export `name` of type `u32 -> i32`, as
/// `lib_call_u32_u32` does.
#[verifier::external_body]
fn lib_call_u32_i32(lib: &mut WASMLibrary, name: &str, arg: u32) -> (r: Result<i32, String>)
    ensures
        final(lib).spec_path() == old(lib).spec_path(),
{
    let f = lib.instance.get_typed_func::<u32, i32>(&mut lib.store, name).map_err(
        |e| e.to_string(),
    )?;
    f.call(&mut lib.store, arg).map_err(|e| e.to_string())
}

/// Relies on wasmtime::Instance::get_typed_func and TypedFunc::call:
/// calls the guest export `name` of type `(u32, u32, u32, u32) -> u32`,
/// as `lib_call_u32_u32` does.
#[verifier::external_body]
fn lib_call_entry(
    lib: &mut WASMLibrary,
    name: &str,
    args: (u32, u32, u32, u32),
) -> (r: Result<u32, String>)
    ensures
        final(lib).spec_path() == old(lib).spec_path(),
{
    let f = lib.instance.get_typed_func::<(u32, u32, u32, u32), u32>(
        &mut lib.store,
        name,
    ).map_err(|e| e.to_string())?;
    f.call(&mut lib.store, args).map_err(|e| e.to_string())
}

/// Whether the `len` bytes starting at `ptr` lie inside a memory of
/// `mem_size` bytes.
pub fn range_in_bounds(ptr: u32, len: u32, mem_size: usize) -> (ok: bool)
    ensures
        ok <==> ptr as int + len as int <= mem_size as int,
{
    (ptr as u64 + len as u64) <= mem_size as u64
}

/// Whether the byte ranges `[a, a + a_len)` and `[b, b + b_len)` do not
/// overlap.
pub fn ranges_disjoint(a: u32, a_len: u32, b: u32, b_len: u32) -> (ok: bool)
    ensures
        ok <==> (a as int + a_len as int <= b as int || b as int + b_len as int <= a as int),
{
    a as u64 + a_len as u64 <= b as u64 || b as u64 + b_len as u64 <= a as u64
}

fn instantiation_error(msg: &str) -> (r: LibraryInstanceError)
    ensures
        r.spec_message() == msg@,
{
    LibraryInstanceError::InstantiationError(GeneralError::ErrorMessage(msg.to_owned()))
}

impl WASMLibrary {
    /// Invoke the module's process entry on one pair of serialized
    /// inputs, following the marshalling protocol: allocate guest
    /// buffers, write the inputs, call `raw_process_entry`, release the
    /// inputs, read the result descriptor, bounds-check it, read the
    /// result bytes, release them, and hand the host-owned copy back.
    ///
    /// Every failure along the way is surfaced as an
    /// `InstantiationError`; what the guest computes is its own affair,
    /// so beyond the protocol itself only the library's own pre-call
    /// check is promised: inputs longer than the 32-bit address space
    /// give the input-size error, and nothing else does.
    pub fn exec_func(&mut self, serialized_metadata: Vec<u8>, serialized_data: Vec<u8>) -> (r:
        Result<Vec<u8>, LibraryInstanceError>)
        ensures
            final(self).spec_path() == old(self).spec_path(),
            r is Ok ==> r->Ok_0@.len() <= u32::MAX,
            (serialized_metadata@.len() > u32::MAX || serialized_data@.len() > u32::MAX) <==> (r
                is Err && r->Err_0.spec_message() == "Input does not fit in module memory"@),
            r is Err ==> (r->Err_0.spec_message() == "Input does not fit in module memory"@
                || r->Err_0.spec_message() == "Cannot allocate module memory for meta data"@
                || r->Err_0.spec_message() == "Cannot write meta data to module memory"@
                || r->Err_0.spec_message() == "Cannot allocate module memory for data"@
                || r->Err_0.spec_message() == "Cannot write data to module memory"@
                || r->Err_0.spec_message() == "Cannot instantiate function"@
                || r->Err_0.spec_message() == "Invalid return code."@
                || r->Err_0.spec_message() == "Cannot instantiate module memory"@
                || r->Err_0.spec_message() == "Cannot read result descriptor from module memory."@
                || r->Err_0.spec_message() == "Invalid result descriptor from module."@
                || r->Err_0.spec_message() == "Cannot read results from module memory."@),
    {
        proof {
            // the input-size message is the only one of length 35, so
            // no later error exit can produce it
            reveal_strlit("Input does not fit in module memory");
            reveal_strlit("Cannot allocate module memory for meta data");
            reveal_strlit("Cannot write meta data to module memory");
            reveal_strlit("Cannot allocate module memory for data");
            reveal_strlit("Cannot write data to module memory");
            reveal_strlit("Cannot instantiate function");
            reveal_strlit("Invalid return code.");
            reveal_strlit("Cannot instantiate module memory");
            reveal_strlit("Cannot read result descriptor from module memory.");
            reveal_strlit("Invalid result descriptor from module.");
            reveal_strlit("Cannot read results from module memory.");
            assert("Input does not fit in module memory"@.len() == 35);
            assert("Cannot allocate module memory for meta data"@.len() == 43);
            assert("Cannot write meta data to module memory"@.len() == 39);
            assert("Cannot allocate module memory for data"@.len() == 38);
            assert("Cannot write data to module memory"@.len() == 34);
            assert("Cannot instantiate function"@.len() == 27);
            assert("Invalid return code."@.len() == 20);
            assert("Cannot instantiate module memory"@.len() == 32);
            assert("Cannot read result descriptor from module memory."@.len() == 49);
            assert("Invalid result descriptor from module."@.len() == 38);
            assert("Cannot read results from module memory."@.len() == 39);
        }
        if serialized_metadata.len() > u32::MAX as usize || serialized_data.len()
            > u32::MAX as usize {
            return Err(instantiation_error("Input does not fit in module memory"));
        }
        let meta_len: u32 = serialized_metadata.len() as u32;
        let data_len: u32 = serialized_data.len() as u32;
        // allocate guest memory for the metadata and write it
        let meta_ptr: u32 = match lib_call_u32_u32(self, "wasm_allocate", meta_len) {
            Ok(p) => p,
            Err(_) => {
                return Err(instantiation_error("Cannot allocate module memory for meta data"));
            },
        };
        if meta_ptr == 0 {
            return Err(instantiation_error("Cannot allocate module memory for meta data"));
        }
        if let Err(_) = lib_mem_write(self, meta_ptr as usize, &serialized_metadata) {
            return Err(instantiation_error("Cannot write meta data to module memory"));
        }
        // allocate guest memory for the data and write it
        let data_ptr: u32 = match lib_call_u32_u32(self, "wasm_allocate", data_len) {
            Ok(p) => p,
            Err(_) => {
                return Err(instantiation_error("Cannot allocate module memory for data"));
            },
        };
        if data_ptr == 0 {
            return Err(instantiation_error("Cannot allocate module memory for data"));
        }
        if let Err(_) = lib_mem_write(self, data_ptr as usize, &serialized_data) {
            return Err(instantiation_error("Cannot write data to module memory"));
        }
        // call the process entry
        let desc_ptr: u32 = match lib_call_entry(
            self,
            "raw_process_entry",
            (meta_ptr, meta_len, data_ptr, data_len),
        ) {
            Ok(p) => p,
            Err(_) => {
                return Err(instantiation_error("Cannot instantiate function"));
            },
        };
        // release the input buffers; a failure here is not fatal, the
        // instance is about to be dropped anyway
        let _ = lib_call_u32_i32(self, "wasm_deallocate", meta_ptr);
        let _ = lib_call_u32_i32(self, "wasm_deallocate", data_ptr);
        if desc_ptr == 0 {
            return Err(instantiation_error("Invalid return code."));
        }
        // read the 8-byte result descriptor
        let mem_size: usize = match lib_mem_size(self) {
            Some(s) => s,
            None => {
                return Err(instantiation_error("Cannot instantiate module memory"));
            },
        };
        if !range_in_bounds(desc_ptr, 8, mem_size) {
            let _ = lib_call_u32_i32(self, "wasm_deallocate", desc_ptr);
            return Err(instantiation_error("Cannot read result descriptor from module memory."));
        }
        let desc_bytes: Vec<u8> = match lib_mem_read(self, desc_ptr as usize, 8) {
            Ok(b) => b,
            Err(_) => {
                let _ = lib_call_u32_i32(self, "wasm_deallocate", desc_ptr);
                return Err(instantiation_error(
                    "Cannot read result descriptor from module memory.",
                ));
            },
        };
        let (result_ptr, result_len): (u32, u32) = decode_descriptor(desc_bytes.as_slice());
        // the result range must lie in memory and apart from the descriptor
        if !range_in_bounds(result_ptr, result_len, mem_size) || !ranges_disjoint(
            result_ptr,
            result_len,
            desc_ptr,
            8,
        ) {
            let _ = lib_call_u32_i32(self, "wasm_deallocate", desc_ptr);
            let _ = lib_call_u32_i32(self, "wasm_deallocate", result_ptr);
            return Err(instantiation_error("Invalid result descriptor from module."));
        }
        // read the result bytes; the descriptor and the result buffer
        // are released even when the read fails, to bound guest memory
        // growth
        let result: Result<Vec<u8>, String> = lib_mem_read(
            self,
            result_ptr as usize,
            result_len as usize,
        );
        let _ = lib_call_u32_i32(self, "wasm_deallocate", desc_ptr);
        let _ = lib_call_u32_i32(self, "wasm_deallocate", result_ptr);
        match result {
            Ok(bytes) => Ok(bytes),
            Err(_) => Err(instantiation_error("Cannot read results from module memory.")),
        }
    }
}

/// The cache of compiled modules, keyed by the path the module was
/// loaded from.
struct ModuleCache {
    entries: Vec<(String, wasmtime::Module)>,
}

impl ModuleCache {
    /// The set of paths with a cached compilation.
    pub closed spec fn keys(&self) -> Set<Seq<char>> {
        Set::new(
            |k: Seq<char>|
                exists|i: int| 0 <= i < self.entries@.len() && #[trigger] self.entries@[i].0@ == k,
        )
    }

    fn new() -> (r: ModuleCache)
        ensures
            r.keys() == Set::<Seq<char>>::empty(),
    {
        let r = ModuleCache { entries: Vec::new() };
        proof {
            assert(r.keys() =~= Set::<Seq<char>>::empty());
        }
        r
    }

    fn get(&self, path: &String) -> (r: Option<&wasmtime::Module>)
        ensures
            r is Some <==> self.keys().contains(path@),
    {
        let n: usize = self.entries.len();
        let mut i: usize = 0;
        while i < n
            invariant
                n == self.entries@.len(),
                i <= n,
                forall|j: int| 0 <= j < i ==> #[trigger] self.entries@[j].0@ != path@,
            decreases n - i,
        {
            if self.entries[i].0 == *path {
                assert(self.keys().contains(path@));
                return Some(&self.entries[i].1);
            }
            i = i + 1;
        }
        proof {
            assert(!self.keys().contains(path@));
        }
        None
    }

    fn insert(&mut self, path: &String, module: wasmtime::Module)
        ensures
            final(self).keys() == old(self).keys().insert(path@),
    {
        self.entries.push((path.clone(), module));
        proof {
            assert forall|k: Seq<char>| final(self).keys().contains(k) implies old(self).keys().insert(path@).contains(k) by {
                let i = choose|i: int|
                    0 <= i < self.entries@.len() && #[trigger] self.entries@[i].0@ == k;
                if i < self.entries@.len() - 1 {
                    assert(old(self).entries@[i].0@ == k);
                }
            }
            assert forall|k: Seq<char>| old(self).keys().insert(path@).contains(k) implies final(self).keys().contains(k) by {
                if k == path@ {
                    assert(self.entries@[self.entries@.len() - 1].0@ == k);
                } else {
                    let i = choose|i: int|
                        0 <= i < old(self).entries@.len() && #[trigger] old(self).entries@[i].0@
                            == k;
                    assert(self.entries@[i].0@ == k);
                }
            }
            assert(final(self).keys() =~= old(self).keys().insert(path@));
        }
    }
}

/// The message reported when a module file cannot be loaded or
/// compiled, over the loader's own message.
pub open spec fn spec_load_error_message(cause: Seq<char>) -> Seq<char> {
    "WASM Library Manager. Error during loading module: "@ + cause
}

/// The message reported when the WASI imports cannot be defined.
pub open spec fn spec_wasi_error_message(cause: Seq<char>) -> Seq<char> {
    "WASM Library Manager. Error adding WASI to Linker: "@ + cause
}

/// The message reported when linking or instantiation fails.
pub open spec fn spec_link_error_message(cause: Seq<char>) -> Seq<char> {
    "WASM Library Manager. Error linking WASI context: "@ + cause
}

/// The instantiation-stage messages never take the loading-module
/// shape: the three prefixes part ways where `during`, `adding` and
/// `linking` begin.
proof fn lemma_instantiation_message_is_not_a_load_message(msg: Seq<char>)
    requires
        exists|cause: Seq<char>|
            msg == spec_wasi_error_message(cause) || msg == spec_link_error_message(cause),
    ensures
        forall|cause: Seq<char>| msg != spec_load_error_message(cause),
{
    reveal_strlit("WASM Library Manager. Error during loading module: ");
    reveal_strlit("WASM Library Manager. Error adding WASI to Linker: ");
    reveal_strlit("WASM Library Manager. Error linking WASI context: ");
    let c = choose|c: Seq<char>|
        msg == spec_wasi_error_message(c) || msg == spec_link_error_message(c);
    assert forall|cause: Seq<char>| msg != spec_load_error_message(cause) by {
        assert(spec_load_error_message(cause)[28]
            == "WASM Library Manager. Error during loading module: "@[28]);
        assert(spec_wasi_error_message(c)[28]
            == "WASM Library Manager. Error adding WASI to Linker: "@[28]);
        assert(spec_link_error_message(c)[28]
            == "WASM Library Manager. Error linking WASI context: "@[28]);
    }
}

/// Owns the engine and the cache of compiled modules, and hands out
/// fresh instances.
pub struct WASMLibraryManager {
    loaded_modules: ModuleCache,
    engine: wasmtime::Engine,
}

impl WASMLibraryManager {
    /// The set of paths whose compiled module is cached.
    pub closed spec fn cached_paths(&self) -> Set<Seq<char>> {
        self.loaded_modules.keys()
    }

    /// A fresh manager with an empty cache.  Its engine is synchronous
    /// and uses conservative linear-memory reservations (the engine
    /// wrapper says why); no file is read and nothing is compiled here.
    pub fn new() -> (r: WASMLibraryManager)
        ensures
            r.cached_paths() == Set::<Seq<char>>::empty(),
    {
        WASMLibraryManager { loaded_modules: ModuleCache::new(), engine: engine_default() }
    }

    /// Compile (or fetch from the cache) the module at `path` and
    /// instantiate it with a fresh WASI context.
    ///
    /// Compilation happens at most once per path: a cached path leaves
    /// the cache untouched, and a compilation failure (an error carrying
    /// the loading-module message) mutates nothing.  On success the
    /// path is cached; every error carries one of the three backend
    /// messages over its cause.
    pub fn get_instance(&mut self, path: &String) -> (r: Result<
        WASMLibrary,
        LibraryDefinitionError,
    >)
        ensures
            old(self).cached_paths().contains(path@) ==> final(self).cached_paths() == old(self).cached_paths(),
            r is Ok ==> final(self).cached_paths() == old(self).cached_paths().insert(path@),
            r is Ok ==> r->Ok_0.spec_path() == path@,
            r is Err ==> final(self).cached_paths() == old(self).cached_paths() || final(self).cached_paths() == old(self).cached_paths().insert(path@),
            r is Err && (exists|cause: Seq<char>|
                r->Err_0.spec_message() == spec_load_error_message(cause)) ==> *final(self)
                == *old(self),
            r is Err ==> exists|cause: Seq<char>|
                r->Err_0.spec_message() == spec_load_error_message(cause)
                    || r->Err_0.spec_message() == spec_wasi_error_message(cause)
                    || r->Err_0.spec_message() == spec_link_error_message(cause),
    {
        let module: wasmtime::Module = match self.loaded_modules.get(path) {
            Some(m) => m.clone(),
            None => {
                match module_from_file(&self.engine, path) {
                    Ok(m) => {
                        self.loaded_modules.insert(path, m.clone());
                        m
                    },
                    Err(msg) => {
                        let mut full: String =
                            "WASM Library Manager. Error during loading module: ".to_owned();
                        full.append(msg.as_str());
                        assert(full@ == spec_load_error_message(msg@));
                        return Err(
                            LibraryDefinitionError::ModuleSpecificError(
                                GeneralError::ErrorMessage(full),
                            ),
                        );
                    },
                }
            },
        };
        proof {
            assert(self.cached_paths() =~= old(self).cached_paths().insert(path@));
        }
        let r = self.instantiate_module(path, &module);
        proof {
            if r is Err {
                lemma_instantiation_message_is_not_a_load_message(r->Err_0.spec_message());
            }
        }
        r
    }

    /// Compile a module handed over as bytes (for callers that embed
    /// their modules rather than load them from disk) and instantiate
    /// it.  The cache is not involved: the bytes carry no path to key
    /// it by.
    pub fn get_instance_from_bytes(&mut self, name: &String, bytes: &Vec<u8>) -> (r: Result<
        WASMLibrary,
        LibraryDefinitionError,
    >)
        ensures
            final(self).cached_paths() == old(self).cached_paths(),
            r is Ok ==> r->Ok_0.spec_path() == name@,
            r is Err ==> exists|cause: Seq<char>|
                r->Err_0.spec_message() == spec_load_error_message(cause)
                    || r->Err_0.spec_message() == spec_wasi_error_message(cause)
                    || r->Err_0.spec_message() == spec_link_error_message(cause),
    {
        let module: wasmtime::Module = match module_from_bytes(&self.engine, bytes) {
            Ok(m) => m,
            Err(msg) => {
                let mut full: String =
                    "WASM Library Manager. Error during loading module: ".to_owned();
                full.append(msg.as_str());
                assert(full@ == spec_load_error_message(msg@));
                return Err(
                    LibraryDefinitionError::ModuleSpecificError(GeneralError::ErrorMessage(full)),
                );
            },
        };
        self.instantiate_module(name, &module)
    }

    /// Link WASI into a fresh linker, build the capability context,
    /// create the store and instantiate the compiled module in it.
    fn instantiate_module(&mut self, path: &String, module: &wasmtime::Module) -> (r: Result<
        WASMLibrary,
        LibraryDefinitionError,
    >)
        ensures
            final(self).cached_paths() == old(self).cached_paths(),
            r is Ok ==> r->Ok_0.spec_path() == path@,
            r is Err ==> exists|cause: Seq<char>|
                r->Err_0.spec_message() == spec_wasi_error_message(cause)
                    || r->Err_0.spec_message() == spec_link_error_message(cause),
    {
        let mut linker = linker_new(&self.engine);
        if let Err(msg) = wasi_add_to_linker(&mut linker) {
            let mut full: String = "WASM Library Manager. Error adding WASI to Linker: ".to_owned();
            full.append(msg.as_str());
            assert(full@ == spec_wasi_error_message(msg@));
            return Err(
                LibraryDefinitionError::ModuleSpecificError(GeneralError::ErrorMessage(full)),
            );
        }
        let ctx = wasi_ctx();
        let mut store = store_new(&self.engine, ctx);
        let instance = match linker_instantiate(&linker, &mut store, module) {
            Ok(i) => i,
            Err(msg) => {
                let mut full: String =
                    "WASM Library Manager. Error linking WASI context: ".to_owned();
                full.append(msg.as_str());
                assert(full@ == spec_link_error_message(msg@));
                return Err(
                    LibraryDefinitionError::ModuleSpecificError(GeneralError::ErrorMessage(full)),
                );
            },
        };
        Ok(WASMLibrary { path: path.clone(), instance, store })
    }
}

} // verus!
