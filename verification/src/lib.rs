//! A peer-to-peer document subscription engine: deterministic peer identity,
//! path-to-topic derivation, update-frame codec, and subscription lifecycle.

#![allow(unused_imports)]

pub mod digest;
pub mod discovery;
pub mod errors;
pub mod identity;
pub mod node;
pub mod protocol;
pub mod subscription;
pub mod util;

use vstd::prelude::*;
use vstd::string::StringSliceAdditionalSpecFns;
use std::sync::Arc;
use crate::discovery::DiscoveryConfig;
use crate::errors::BraidError;
use crate::identity::{public_of, resolve, resolve_spec, PeerIdentity};
use crate::node::{
    subscribe_transition, BraidIrohConfig, BraidIrohNode, JoinModel, JoinRequest, NodeModel,
    ProxyConfig,
};
use crate::util::hex_of;

verus! {

/// The port the local proxy bridge listens on when none is given.
pub const DEFAULT_PROXY_PORT: u16 = 8080;

/// The document path every freshly spawned node subscribes to.
pub open spec fn demo_doc_path() -> Seq<u8> {
    "/demo-doc".spec_bytes()
}

/// The demo document path is a valid path: nine ASCII bytes.
pub proof fn lemma_demo_doc_path_valid()
    ensures
        demo_doc_path().len() == 9,
{
    reveal_strlit("/demo-doc");
    assert("/demo-doc"@.len() == 9);
    assert(vstd::utf8::is_ascii_chars("/demo-doc"@));
    vstd::utf8::is_ascii_chars_encode_utf8("/demo-doc"@);
}

/// Core application state that can be shared across consumers.
pub struct BraidIrohState {
    /// The running node.
    pub peer: Arc<BraidIrohNode>,
    /// The node's printable identifier: its public identifier in
    /// lower-case hexadecimal.
    pub node_id: Vec<u8>,
    /// The human-readable name the node was spawned under.
    pub node_name: String,
}

/// Derives the identity a name stands for: each reserved demo name yields
/// its fixed well-known keypair, and any other name yields key material
/// digested from the name's bytes.
pub fn get_or_create_secret_key(name: &str) -> (r: PeerIdentity)
    ensures
        r@ == resolve_spec(name@),
        r.wf(),
{
    resolve(name)
}

/// Configures and spawns a node: resolves the identity (the override wins
/// over the name), fills in the default proxy port, opens the registry with
/// one subscription to the demo document, and hands back the join request
/// that the caller must give to the transport.
pub fn spawn_node(
    name: &str,
    port: Option<u16>,
    secret_key_override: Option<PeerIdentity>,
    discovery: DiscoveryConfig,
) -> (r: Result<(BraidIrohState, usize, Option<JoinRequest>), BraidError>)
    requires
        secret_key_override matches Some(k) ==> k.wf(),
    ensures
        r is Ok,
        ({
            let ident = match secret_key_override {
                Some(k) => k@,
                None => resolve_spec(name@),
            };
            let m0 = NodeModel {
                identity: ident,
                public_id: public_of(ident),
                subs: Seq::empty(),
                transport_open: true,
            };
            let (m1, rr) = subscribe_transition(m0, demo_doc_path(), Seq::empty());
            match (r, rr) {
                (Ok((state, h, j)), Ok((sh, sj))) => {
                    &&& state.peer@ == m1
                    &&& state.peer@.wf()
                    &&& h as int == sh
                    &&& match (j, sj) {
                        (Some(jr), Some(jm)) => jr@ == jm,
                        (None, None) => true,
                        _ => false,
                    }
                    &&& state.node_id@ == hex_of(public_of(ident))
                    &&& state.node_name@ == name@
                    &&& (state.peer.proxy_model() matches Some(p) && p.listen_port == (
                    match port {
                        Some(q) => q,
                        None => DEFAULT_PROXY_PORT,
                    }) && p.default_peer == Seq::new(32, |i: int| 0u8))
                    &&& state.peer.discovery_model() == discovery@
                },
                (Err(e), Err(se)) => e == se,
                _ => false,
            }
        }),
{
    let ghost ident0 = match secret_key_override {
        Some(ref k) => k@,
        None => resolve_spec(name@),
    };
    let identity = match secret_key_override {
        Some(k) => k,
        None => resolve(name),
    };
    proof {
        assert(identity@ == ident0);
    }
    let proxy_port = match port {
        Some(p) => p,
        None => DEFAULT_PROXY_PORT,
    };
    let proxy_config = Some(
        ProxyConfig {
            listen_port: proxy_port,
            default_peer: crate::identity::constant_key(0),
        },
    );
    let config = BraidIrohConfig { discovery, secret_key: Some(identity), proxy_config };
    let mut peer = BraidIrohNode::spawn(config);
    proof {
        assert(peer@ == NodeModel {
            identity: ident0,
            public_id: public_of(ident0),
            subs: Seq::empty(),
            transport_open: true,
        });
    }
    let node_id = peer.node_id();
    let demo = "/demo-doc".as_bytes();
    let boot: Vec<Vec<u8>> = Vec::new();
    proof {
        assert(boot.deep_view() =~~= Seq::<Seq<u8>>::empty());
    }
    match peer.subscribe(demo, boot) {
        Ok((handle, join)) => {
            let state = BraidIrohState { peer: Arc::new(peer), node_id, node_name: name.to_owned() };
            Ok((state, handle, join))
        },
        Err(_) => {
            proof {
                lemma_demo_doc_path_valid();
            }
            vstd::pervasive::unreached()
        },
    }
}

} // verus!
