//! Decoder for a vendor-specific touch-controller configuration binary.
//!
//! The binary packs a fixed header, a table of 16-bit little-endian package
//! offsets, and a number of per-chip-variant configuration packages. The
//! decoder validates the header, verifies an 8-bit wrapping checksum over the
//! tail of the buffer, resolves each package's byte range from the offset
//! table, and extracts the fixed metadata records and raw payload of each
//! package into a typed result, keyed in a registry by configuration variant.
//!
//! Every byte range derived from the input is checked against the buffer's
//! bounds before it is read, so malformed or truncated inputs fail with one
//! of the defined error kinds instead of reading out of range.

pub mod errors;
pub mod layout;
pub mod model;
pub mod types;
pub mod decode;
pub mod laws;
