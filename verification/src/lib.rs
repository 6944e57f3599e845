//! A deterministic, integer-only digit-classification engine: a three-layer
//! fully-connected network (784 -> 256 -> 128 -> 10) evaluated entirely in
//! fixed-point arithmetic, together with the small platform-facing pieces
//! (console sink, line reader, platform selection) and a cycle-based
//! benchmark calculator.

use vstd::prelude::*;

pub mod activation;
pub mod arith;
pub mod bench;
pub mod classify;
pub mod dataset;
pub mod io;
pub mod matmul;
pub mod pipeline;
pub mod platform;
pub mod quantize;
pub mod requantize;
pub mod scale;
pub mod vecmath;
pub mod weights;

verus! {

/// The ways the engine can fail.
#[derive(Clone, Copy, Debug, PartialEq, Eq, Structural)]
pub enum InferenceError {
    /// A weight blob is too short for the layer it is meant to fill
    /// (load-time, fatal: the model must not be constructed).
    MalformedWeights,
    /// An image buffer does not hold exactly one 784-byte image
    /// (call-time: the single call fails, the model is untouched).
    InvalidImageLength,
}

} // verus!
