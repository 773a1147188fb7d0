//! What every signalling session shares.

use vstd::prelude::*;
use crate::local::config::SfuConfig;
use crate::local::sfu::LocalSfu;
use crate::server::protocol::{JsonIceServer, JsonRtcConfiguration};
use crate::server::storage::Storage;

verus! {

/// The forwarding unit, the peer registry and the configuration.
pub struct AppState {
    pub sfu: LocalSfu,
    pub storage: Storage,
    pub config: SfuConfig,
}

impl AppState {
    /// The forwarding unit and the registry are well formed.
    pub open spec fn wf(&self) -> bool {
        &&& self.sfu.wf()
        &&& self.storage.wf()
    }

    /// The state of a server that runs `sfu`, with an empty registry.
    pub fn new(sfu: LocalSfu, config: SfuConfig) -> (state: Self)
        ensures
            state.sfu == sfu,
            state.config == config,
            state.storage.wf(),
            state.storage@ == Map::<Seq<char>, crate::server::protocol::PeerStatusView>::empty(),
            state.storage.order() == Seq::<Seq<char>>::empty(),
    {
        AppState { sfu, storage: Storage::new(), config }
    }

    /// The peer-connection configuration sent to clients: one ICE server
    /// per configured address, without credentials.
    pub fn get_client_rtc_config(&self) -> (rtc: JsonRtcConfiguration)
        ensures
            rtc.offers(self.config.ice_servers.deep_view()),
    {
        let mut ice_servers: Vec<JsonIceServer> = Vec::new();
        let mut i: usize = 0;
        while i < self.config.ice_servers.len()
            invariant
                i <= self.config.ice_servers@.len(),
                ice_servers@.len() == i,
                forall|j: int|
                    0 <= j < i ==> {
                        &&& (#[trigger] ice_servers@[j]).urls.deep_view() == seq![
                            self.config.ice_servers.deep_view()[j],
                        ]
                        &&& ice_servers@[j].username is None
                        &&& ice_servers@[j].credential is None
                    },
            decreases self.config.ice_servers@.len() - i,
        {
            let mut urls: Vec<String> = Vec::new();
            urls.push(self.config.ice_servers[i].clone());
            assert(urls.deep_view() =~= seq![self.config.ice_servers.deep_view()[i as int]]);
            ice_servers.push(JsonIceServer { urls, username: None, credential: None });
            i += 1;
        }
        JsonRtcConfiguration { ice_servers }
    }
}

} // verus!
