//! Elliptic-curve point arithmetic over secp256k1 on the flat 64-byte form
//! of a public key: in-place scalar multiplication, in-place point addition
//! and the curve's generator.
//!
//! A point travels as `X ‖ Y`, two 32-byte big-endian coordinates. The curve
//! arithmetic itself is done by the `secp256k1` crate; what this library adds
//! and proves is everything between the byte buffers and those calls.

pub mod bytes;
pub mod curve;
pub mod error;
pub mod field;
pub mod keys;
pub mod laws;
pub mod math;
