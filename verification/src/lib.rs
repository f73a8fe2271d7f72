//! Readme acquisition and normalization for a repository-hosting API.
//!
//! The library holds every decision of the service: which requests are sent,
//! how a readme's format is recognised from its file name, how inline content
//! is decoded, and how a document converter is driven. Network, file system
//! and process work are left to the caller, which performs the actions that
//! the library hands out and reports their outcomes back.

pub mod address;
pub mod api;
pub mod b64;
pub mod client;
pub mod config;
pub mod error;
pub mod pandoc;
pub mod readme;
pub mod text;

pub use error::Error;
