//! Core logic of a directory-watching video transcoding service.
//!
//! The service watches one directory for new or modified video files and
//! converts each into a segmented adaptive-streaming layout by invoking an
//! external encoder process. This crate holds the verified decision logic of
//! that pipeline: event qualification, output-path derivation, encoder
//! argument construction, configuration defaults and parsing, and the
//! per-job lifecycle state machine. Filesystem watching, sleeping and
//! process spawning are left to the surrounding binary, which feeds this
//! library plain values and acts on what it returns.

use vstd::prelude::*;

pub mod chars;
pub mod config;
pub mod invoke;
pub mod job;
pub mod paths;
pub mod qualify;

verus! {

/// Milliseconds a job waits after detection before the encoder is invoked,
/// as a heuristic that the producer has finished writing the file.
pub const SETTLE_DELAY_MS: u64 = 2000;

} // verus!
