//! Stage sequencing for a node bootstrap program.
//!
//! A freshly booted node is brought up by a short, fixed list of stages. Each
//! process runs exactly one stage and then hands over to a fresh instance of
//! the same binary for the next one, so that a stage which replaces the binary
//! on disk takes effect for every stage after it.

pub mod chain;
pub mod config;
pub mod decimal;
pub mod error;
pub mod exit;
pub mod request;
pub mod sequencer;
pub mod stage;
