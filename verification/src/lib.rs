//! The decision core of a selective forwarding unit for WebRTC media.
//!
//! The library holds the rules of the forwarding engine and of the
//! signalling sessions as plain data and total functions: which sessions
//! exist, which tracks fan out to which subscribers, when a keyframe request
//! may go upstream, and how each signalling message is answered. Network
//! and media work is left to the caller, who performs the commands that
//! these functions return and reports what happened.

pub mod text;
pub mod table;
pub mod local;
pub mod sfu_core;
pub mod server;
pub mod grabber_client;
