//! Export checks: which destinations, sizes and frame sets an export
//! accepts. Encoding and writing the files is the caller's.

pub mod gltf;
pub mod png;
pub mod video;
