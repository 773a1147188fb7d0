//! The signalling server: the peer registry, the outbound queue of a
//! socket, and the sessions of grabbers and players.

pub mod error;
pub mod handlers;
pub mod protocol;
pub mod state;
pub mod storage;
pub mod websocket;

pub use error::{Result, SignallingError};
pub use handlers::{get_peers, health};
pub use state::AppState;
pub use storage::Storage;
