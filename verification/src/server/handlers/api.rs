//! The answers of the HTTP API.

use vstd::prelude::*;
use crate::sfu_core::Sfu;
use crate::server::protocol::PeerStatus;
use crate::server::state::AppState;
use crate::text::text;

verus! {

/// The body of the list of peers.
#[derive(Debug)]
pub struct PeersResponse {
    pub peers: Vec<PeerStatus>,
}

/// The body of the health report.
#[derive(Debug)]
pub struct HealthResponse {
    pub status: String,
    pub sfu_id: String,
    pub publishers: usize,
    pub subscribers: usize,
}

/// The status of every registered grabber, each once, in the order in which
/// their names were first registered.
pub fn get_peers(state: &AppState) -> (response: PeersResponse)
    requires
        state.storage.wf(),
    ensures
        response.peers@.len() == state.storage.order().len(),
        response.peers@.len() == state.storage@.dom().len(),
        forall|i: int|
            0 <= i < response.peers@.len() ==> (#[trigger] response.peers@[i]).name@
                == state.storage.order()[i] && state.storage@.contains_key(
                state.storage.order()[i],
            ) && response.peers@[i]@ == state.storage@[state.storage.order()[i]],
{
    PeersResponse { peers: state.storage.get_all_statuses() }
}

/// The health report: the unit's name and the number of registered
/// grabbers. Subscribers are not counted in the registry and are reported
/// as none.
pub fn health(state: &AppState) -> (response: HealthResponse)
    requires
        state.storage.wf(),
    ensures
        response.status@ == "ok"@,
        response.sfu_id@ == state.sfu.id@,
        response.publishers == state.storage@.dom().len(),
        response.subscribers == 0,
{
    let publishers = state.storage.get_all_statuses().len();
    HealthResponse {
        status: text("ok"),
        sfu_id: text(state.sfu.id()),
        publishers,
        subscribers: 0,
    }
}

} // verus!
