//! Build-mode decision and artifact resolution for a contract build that
//! prefers a reproducible container build and falls back to a local build.
mod paths;

pub mod artifact;
pub mod error;
pub mod invocation;
pub mod laws;
pub mod options;
pub mod orchestrator;
