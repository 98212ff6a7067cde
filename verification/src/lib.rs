//! Command bridge for a local cockpit application.
//!
//! The bridge turns user-triggered actions (import a master specification,
//! import supplier feedback, fetch cockpit data, list recent projects,
//! create a project) into correctly addressed, injection-safe invocations of
//! an external backend process, and decodes each invocation's outcome into a
//! typed result or a classified error.
//!
//! The bridge itself performs no I/O: it builds an [`encoding::Invocation`]
//! describing exactly which program to run with which discrete arguments, and
//! it decodes an [`decoding::Outcome`] captured from the finished process.
//! Spawning the process and capturing its streams is left to the embedding
//! application.

pub mod addressing;
pub mod decimal;
pub mod decoding;
pub mod dispatch;
pub mod encoding;
pub mod errors;
