//! Regression testing for Game Boy audio drivers: parse two builds of a GBS
//! file, simulate each song on a Game Boy CPU core while recording every
//! write to the sound registers, and pair the two recordings to report where
//! the drivers diverge.

pub mod args;
pub mod diag;
pub mod diff;
pub mod gbs;
pub mod hw;
pub mod reg_log;
pub mod render;
pub mod report;
pub mod run;
pub mod text;

pub use diag::{Address, Diagnostic, DiagnosticLevel, Timestamp};
