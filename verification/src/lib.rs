//! Verified core of a media-download manager.
//!
//! The crate models the download pipeline around an external extraction
//! tool: request types and their tool configuration, a progress estimator
//! that turns noisy raw signals into a monotonic percentage, a keyed
//! progress store with a polling endpoint, an artifact finder, a locator
//! for the external binary, and the orchestrating state machine that ties
//! the phases together.  All file, process and network work is done by the
//! surrounding application, which feeds plain values into these verified
//! functions and carries their decisions out.

pub mod blob;
pub mod catalog;
pub mod config;
pub mod estimator;
pub mod finder;
pub mod history;
pub mod locator;
pub mod naming;
pub mod orchestrator;
pub mod parse;
pub mod render;
pub mod request;
pub mod store;
pub mod shell;
pub mod text;
pub mod types;
