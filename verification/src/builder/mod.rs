//! The asset builder: where imported assets go, which GLB files a category
//! accepts, how an import assembles its metadata, and the GLB container.

pub mod fixtures;
pub mod glb;
pub mod import;
pub mod paths;
pub mod validate;
