//! Shared utilities.

pub mod errors;
