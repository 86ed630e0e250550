//! Decision core of a Kanban task-board backend.
//!
//! Nothing here touches a socket, a database or a disk. Each endpoint is a
//! small state machine: it is started with what the request carries, names
//! the command it wants performed next, and is stepped with the event that
//! came of it until it has its answer. What every step does is stated as a
//! function on plain mathematical values, and the executable step is proved
//! to compute it.
//!
//! - [`config`]: the settings of the service and the rules they must meet.
//! - [`utils::errors`]: the ways a request can fail, and how each is shown.
//! - [`models`]: the records that requests, the store and responses hold.
//! - [`effects`]: commands, events, and the runs they make up.
//! - [`database`]: health of the store and the checks at startup.
//! - [`handlers`]: the endpoints.
//! - [`text`]: helpers on strings.

pub mod config;
pub mod database;
pub mod effects;
pub mod handlers;
pub mod models;
pub mod text;
pub mod utils;
