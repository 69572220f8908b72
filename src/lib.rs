//! Fetches versioned reference databases, checks them against their MD5
//! manifest and keeps a stable pointer to the latest verified copy.
//!
//! The library holds the decisions; the caller performs the transfers and the
//! filesystem work that the pipeline asks for.
pub mod config;
pub mod digest;
pub mod error;
pub mod manager;
pub mod manifest;
pub mod pipeline;
