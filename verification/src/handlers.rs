//! The endpoints. Each is a function that starts a request and a state that
//! is stepped with the events that come back.

pub mod auth;
pub mod file;
pub mod health;
pub mod task;
