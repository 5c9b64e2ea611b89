//! The decisions and computations of a flash transfer benchmark.
//!
//! The crate holds everything about a benchmark that is not I/O: which
//! arguments are acceptable, which steps a run takes, what is written to the
//! flash, how the answers of the device are assembled and checked, what the
//! progress line shows and what the report says. Serial connections, clocks
//! and floating-point statistics belong to the program that drives it.

pub mod args;
pub mod digest;
pub mod flash;
pub mod iteration;
pub mod pattern;
pub mod phase;
pub mod phase_laws;
pub mod progress;
pub mod progress_laws;
pub mod readback;
pub mod region;
pub mod report;
pub mod results;
pub mod run;
pub mod text;
pub mod text_laws;
pub mod transfer;
pub mod transfer_laws;
pub mod visit;
