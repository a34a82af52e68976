//! A verified core for a single-file copy/move utility.
//!
//! The library holds everything the utility decides or computes: the
//! block-wise transfer engine with resume-from-offset semantics, the
//! progress-column mapping onto a fixed 0..=100 scale, the overwrite and
//! resume policy, and the styled strings the progress display is made of.
//! Reading command-line arguments and moving bytes between real files is
//! left to the thin binary built around this crate.

pub mod config;
pub mod engine;
pub mod errors;
pub mod orchestrator;
pub mod paths;
pub mod probe;
pub mod progress;
pub mod term;
