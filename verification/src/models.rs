//! Wire records: what requests carry, what the store holds, what responses show.

pub mod auth;
pub mod file;
pub mod task;
