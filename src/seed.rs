//! The header of a baked `.seed` scene file and the importer that writes it.
use vstd::prelude::*;

verus! {

/// First four bytes of every `.seed` file.
pub const SEED_MAGIC: [u8; 4] = [0x53u8, 0x45u8, 0x45u8, 0x44u8];

/// Format version written by the importer.
pub const SEED_VERSION: u32 = 2030;

/// Fixed-size header at the start of a `.seed` file, followed by the
/// vertex records (position and normal) in Morton order.
#[derive(Debug, Clone, Copy, PartialEq, Eq)]
pub struct SeedFileHeader {
    pub magic: [u8; 4],
    pub version: u32,
    /// Number of vertex records after the header.
    pub vertex_count: u64,
    /// Reserved.
    pub index_count: u64,
    /// Reserved for an acceleration structure.
    pub bvh_offset: u64,
    /// Reserved.
    pub material_ptr: u64,
}

impl SeedFileHeader {
    /// The header of a file holding `vertex_count` vertex records; the
    /// reserved fields are zero.
    pub fn new(vertex_count: u64) -> (r: Self)
        ensures
            r.magic@ == SEED_MAGIC@,
            r.version == SEED_VERSION,
            r.vertex_count == vertex_count,
            r.index_count == 0,
            r.bvh_offset == 0,
            r.material_ptr == 0,
    {
        SeedFileHeader {
            magic: SEED_MAGIC,
            version: SEED_VERSION,
            vertex_count,
            index_count: 0,
            bvh_offset: 0,
            material_ptr: 0,
        }
    }
}

/// Bakes source meshes into `.seed` files.
pub struct SeedImporter;

} // verus!
