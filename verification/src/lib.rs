//! A bridge between raw 32-byte big-endian buffers and three primitives over
//! the STARK prime field: the Pedersen hash, the Poseidon permutation and
//! ECDSA signature verification.
//!
//! `bytes` holds the arithmetic of big-endian byte strings, `felt` the field
//! element and its codec, `primitives` the three operations on field
//! elements, and `bridge` the same operations on caller-owned buffers.

pub mod bytes;
pub mod felt;
pub mod primitives;
pub mod bridge;
