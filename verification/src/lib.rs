//! The core of a newsletter subscription service: input validation, the
//! subscription and confirmation workflows, and administrator authentication.
//!
//! Nothing here touches a database, a session store or the network. Each
//! workflow is a state machine: it hands its driver a
//! [`Command`](protocol::Command), takes the [`Event`](protocol::Event) that
//! came of it, and ends with a [`Response`](protocol::Response). What the
//! workflows achieve when their commands are carried out is stated in
//! [`laws`], against the model of the outside world in [`model`].

pub mod authentication;
pub mod domain;
pub mod error;
pub mod laws;
pub mod model;
pub mod protocol;
pub mod routes;
pub mod session_state;
pub mod utils;

pub use error::Error;
