//! Function transformations driven by attribute arguments: a wait before each call
//! (`wait_for`) and a bounded retry around a fallible body (`retry`).
//!
//! The attribute arguments and the function are given as plain values; the result
//! is the rewritten function, whose generated statements are described by
//! [`synth::Stmt`] and rendered to tokens by the surrounding tooling.

pub mod config;
pub mod synth;
pub mod runtime;

pub use synth::{retry, wait_for};
