//! Reading `KAPL` game archives: header and directory decoding, name
//! resolution, payload slicing, and synthesis of DDS headers for raw
//! compressed textures. Every function works on the archive held in memory
//! as a byte slice and states its result exactly.

pub mod archive;
pub mod bytes;
pub mod dds;
pub mod error;
pub mod extract;
pub mod names;
