//! A counter contract: one signed 32-bit value that can be read, raised by a
//! fixed amount, lowered by a fixed amount, or cleared.
//!
//! The state changes are verified here. Each changing operation also hands back
//! the diagnostic lines it wants written to the host's log; sending them is the
//! host adapter's job.

pub mod counter;
pub mod decimal;
pub mod log_lines;

pub use counter::Change;
