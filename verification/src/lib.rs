//! Verified core of a small deployment tool that pushes a freshly built
//! executable to a remote device over SSH.
//!
//! The library holds everything that decides or computes: the hostname
//! sanitizer, the deployment configuration record and its JSON codec, and
//! the step-by-step workflow machines (trust bootstrap and the overall run).
//! The surrounding binary performs the file, console and subprocess work and
//! feeds the outcomes back in as plain events.

pub mod chars;
pub mod codec;
pub mod config;
pub mod errors;
pub mod run;
pub mod sanitize;
pub mod trust;
pub mod workflow;

pub use sanitize::sanitize_hostname;
