//! Decoding of the fixed 64-byte header of the segmented "New Executable"
//! format, with little-endian integer fields that read the same on any host.
pub mod endian;
pub mod header;
