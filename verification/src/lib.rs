//! Verified core of a small tool that losslessly clips media files: it cuts a
//! time range out of an input and copies the chosen streams to an output.
//!
//! Times are counted in microseconds, the unit ffmpeg measures time in.

pub mod decimal;
pub mod media;
pub mod paths;
pub mod state;
pub mod utils;
