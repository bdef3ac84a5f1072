//! A proof-to-chain settlement pipeline.
//!
//! The library turns the outcome of a proving backend into a
//! chain-verifiable payload and classifies the fate of its submission:
//! a journal codec with a canonical fixed-width byte layout, a seal
//! encoder dispatching on the proof variant, a model of the parity
//! predicate that the proof attests to, configuration validation, and
//! a submission policy with confirmation depth, timeout and failure
//! classification.

pub mod codec;
pub mod config;
pub mod pipeline;
pub mod predicate;
pub mod prover;
pub mod receipt;
pub mod seal;
pub mod submit;
