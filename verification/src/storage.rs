//! The storage module interface.
//!
//! Storage backends are pluggable modules; what follows is the data
//! carried in a storage block and the traits a pluggable storage and
//! its manager implement.  No backend ships with the runtime.

use vstd::prelude::*;

verus! {

/// The marker bytes framing a storage block.
pub const BLOCKMAGIC: [u8; 4] = [90, 85, 83, 69];

/// Where a storage keeps its blocks.
pub enum StorageType {
    Volatile,
    PermanentLocal,
    PermanentRemote,
}

/// A file of storage blocks.
pub struct StorageFile {
}

/// Where the record with a given id sits inside a block.
pub struct StorageIdData {
    pub id: Vec<u8>,
    pub position: u32,
    pub size: u32,
}

/// The metadata of one storage block.
pub struct StorageBlockMetadata {
    pub version: u32,
    pub size_processed: u64,
    pub size_original: u64,
    pub ids: StorageIdData,
    pub writer_identifier: String,
    pub applied_modules: Vec<String>,
}

/// One storage block: framed payload, lookup data and metadata.
pub struct StorageBlock {
    pub magic_start: [u8; 4],
    pub block_data: Vec<u8>,
    pub lookup_data: Vec<u8>,
    pub metadata: StorageBlockMetadata,
    pub magic_end: [u8; 4],
}

impl StorageBlock {
    /// A block is framed by the marker bytes on both sides.
    pub open spec fn wf(&self) -> bool {
        self.magic_start@ == BLOCKMAGIC@ && self.magic_end@ == BLOCKMAGIC@
    }
}

/// What every pluggable storage offers.
pub trait Storage {
    fn read_block_header(&self);

    fn query_attributes_by_id(&self);

    fn query_ids_by_attribute(&self);
}

/// What the runtime offers applications for a registered storage.
pub trait StorageManager<S: Storage> {
    fn add(&self);
}

/// What a pluggable storage module implements.
pub trait ModuleStorage {
    fn add_block(&self);
}

} // verus!
