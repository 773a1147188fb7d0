//! The single-node forwarding unit: configuration, errors, track
//! broadcasters, sessions and the facade that ties them together.

pub mod broadcaster;
pub mod config;
pub mod error;
pub mod negotiation;
pub mod service;
pub mod session;
pub mod sfu;

pub use config::SfuConfig;
pub use sfu::LocalSfu;
