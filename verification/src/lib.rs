//! Acquisition and verification of historical kernel source releases.
//!
//! The library models the release catalog and its mirror-path derivation,
//! the streaming archive verifier, the bounded-concurrency download/cache
//! manager, the tag source of a local version-control clone, and the
//! unification of both sources into one ordered queue of analyzable units.

pub mod acquire;
pub mod archive;
pub mod error;
pub mod git;
pub mod kernels;
pub mod queue;
pub mod report;
pub mod text;

pub use error::Error;
