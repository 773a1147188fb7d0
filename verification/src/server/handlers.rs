//! The HTTP API and the two signalling sessions.

pub mod api;
pub mod grabber;
pub mod player;

pub use api::{get_peers, health};
