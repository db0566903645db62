//! A pluggable text-signing and verification engine.
//!
//! Given raw byte content and a key, produce a signature; given content, a
//! key, and a signature, verify authenticity. Two interchangeable schemes are
//! supported, selected by a format tag: a symmetric Blake3 keyed-hash scheme
//! and the asymmetric Ed25519 scheme, with a uniform key-generation entry
//! point. The engine consumes byte buffers and emits byte buffers; reading
//! content and persisting keys are the caller's concern.

pub mod cli;
pub mod errors;
pub mod formats;
pub mod keys;
pub mod primitives;
pub mod strutil;
pub mod text;
