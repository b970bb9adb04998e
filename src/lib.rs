//! In-memory representation of a voxel world's chunked block data: coordinate
//! types, the name/ID registry, packed block identifiers and palette-compressed
//! chunk storage.

pub mod chunk;
pub mod coordinates;
pub mod registry;
pub mod voxeltypes;
