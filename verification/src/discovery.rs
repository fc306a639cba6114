use vstd::prelude::*;

verus! {

/// Model of a discovery policy: which mechanisms the transport enables.
pub ghost struct DiscoveryModel {
    pub enable_local_network: bool,
    pub enable_rendezvous: bool,
    pub static_peers: Seq<Seq<u8>>,
}

/// Policy describing how a node finds other peers. Consumed by the transport
/// at spawn time; the engine itself never queries discovery.
pub struct DiscoveryConfig {
    /// Advertise and listen for peers on the local network.
    pub enable_local_network: bool,
    /// Publish to and resolve through a rendezvous relay.
    pub enable_rendezvous: bool,
    /// Fixed peer addresses contacted at startup; may be empty.
    pub static_peers: Vec<Vec<u8>>,
}

impl View for DiscoveryConfig {
    type V = DiscoveryModel;

    open spec fn view(&self) -> DiscoveryModel {
        DiscoveryModel {
            enable_local_network: self.enable_local_network,
            enable_rendezvous: self.enable_rendezvous,
            static_peers: self.static_peers.deep_view(),
        }
    }
}

impl DiscoveryConfig {
    /// A policy that enables nothing and lists no peers: the node then relies
    /// wholly on bootstrap peers supplied per subscription.
    pub fn empty() -> (r: DiscoveryConfig)
        ensures
            !r@.enable_local_network,
            !r@.enable_rendezvous,
            r@.static_peers =~= Seq::<Seq<u8>>::empty(),
    {
        DiscoveryConfig {
            enable_local_network: false,
            enable_rendezvous: false,
            static_peers: Vec::new(),
        }
    }
}

} // verus!
