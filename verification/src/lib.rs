//! Memoizes the standard output of a shell command in a file for a
//! configurable time-to-live.
//!
//! The library decides; it performs no input or output. [`executor`] holds
//! the cache-aware executor as a machine that is driven from outside,
//! [`freshness`] the rule by which a cache file is served or renewed,
//! [`clock`] the age of a cache file, [`fingerprint`] the identity of a
//! command and the name of its cache file, [`text`] the reading of bytes as
//! text, and [`model`] what the executor guarantees.

pub mod clock;
pub mod executor;
pub mod fingerprint;
pub mod freshness;
pub mod model;
pub mod text;

pub use crate::clock::Timestamp;
pub use crate::executor::{Action, Event, Failure, Invocation, Phase};
pub use crate::fingerprint::{cache_file_name, hash};
pub use crate::freshness::DEFAULT_TTL_SECS;
