//! Lazy, composable bit-wise logic over bit-addressable sequences.
//!
//! Any type that offers read-only bit and block access (the [`bits::Bits`]
//! capability) can be wrapped in a zero-allocation view that computes
//! NOT, AND, OR or XOR of its operands on demand, at bit granularity and
//! at 64-bit block granularity, and that stays lazy under range slicing.

pub mod adapter;
pub mod bits;
pub mod bitvec;
pub mod laws;
