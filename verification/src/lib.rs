//! A PLONK proof toolkit: commitment-key management, a sponge-based
//! deterministic transcript engine, and the proof lifecycle (setup, proving,
//! verification) around them.
//!
//! - [`field`] and [`permutation`]: the Goldilocks base field and the fixed
//!   width-12 permutation the transcript sponge runs on.
//! - [`transcript`]: the transcript engine, absorbing field elements and
//!   squeezing pseudorandom elements, extension challenges and bounded index
//!   permutations, each operation specified exactly.
//! - [`plonk`]: the lifecycle orchestration over BN256, with verified range
//!   decisions and transcript-variant dispatch.
//! - [`report`]: circuit-analysis reports and their canonical JSON text.
//! - [`backend`]: the trusted gateway to the outside proving library.

pub mod backend;
pub mod field;
pub mod permutation;
pub mod plonk;
pub mod report;
pub mod transcript;
