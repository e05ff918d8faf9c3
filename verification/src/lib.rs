//! A local "spec" sharing service: durable keyed storage of short text
//! documents, an HTTP create/read surface over it, and a process supervisor
//! that runs the service as a background daemon tracked by a PID file.

use vstd::prelude::*;

pub mod client;
pub mod config;
pub mod digits;
pub mod errors;
pub mod installer;
pub mod registry;
pub mod service;
pub mod slug;
pub mod spec_parser;
pub mod store;
pub mod supervisor;
pub mod text;

verus! {

/// Upper bound, in bytes, on the content of a stored spec.
pub const MAX_CONTENT_SIZE: usize = 500 * 1024;

} // verus!
