//! Conversion between wide references and their (metadata, address) parts.
//!
//! Addresses are plain machine words. Each kind of unsized referent has a
//! two-word (or one-word) handle type, and the `DynSized` trait maps a handle
//! to its parts and back without ever reading through the address.
pub mod repr;
pub mod protocol;
pub mod layout;
pub mod memory;
pub mod laws;
