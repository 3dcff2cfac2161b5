//! A modular data-processing pipeline runtime built around a sandboxed
//! WebAssembly module host.
//!
//! The host loads user-supplied Wasm modules, instantiates them with a
//! capability-limited system interface and invokes them with Arrow IPC
//! record batches handed through the module's linear memory via an
//! explicit allocate / call / read / deallocate protocol.

use vstd::prelude::*;

pub mod abi;
pub mod apps;
pub mod errors;
pub mod guest;
pub mod jobs;
pub mod modules;
pub mod pipeline;
pub mod registry;
pub mod storage;
pub mod wasm;

verus! {

/// The version of this library, in `major.minor.patch` form.
pub fn version() -> (r: String)
    ensures
        r@ == "0.1.0"@,
{
    let v: &str = "0.1.0";
    v.to_owned()
}

} // verus!
