//! Verified core of a spinning-top simulator: the bounded trajectory history,
//! the fixed-step pacing of the integration loop, the run lifecycle and the
//! checks that guard a run against a faulty body or a degenerate state.
//!
//! The integrator itself works in floating point and lives with the
//! program; this library handles its numbers as bit patterns only.

pub mod binary32;
pub mod body;
pub mod pacing;
pub mod queue;
pub mod scheduler;
pub mod trajectory;
pub mod vertex;
