use vstd::prelude::*;
use crate::digest::DIGEST_LEN;
use crate::discovery::DiscoveryConfig;
use crate::errors::BraidError;
use crate::identity::PeerIdentity;
use crate::protocol::{frame_bytes, decode_spec, FrameModel, UpdateFrame, MAX_PATH_LEN,
    MAX_PAYLOAD_LEN, decode, encode};
use crate::subscription::{topic_of, derive_topic, SubModel, SubStatus, Subscription};
use crate::util::{append_bytes, bytes_eq};
use vstd::pervasive::{unreached, VecAdditionalExecFns};

verus! {

/// Model of a proxy bridge configuration.
pub ghost struct ProxyModel {
    pub listen_port: u16,
    pub default_peer: Seq<u8>,
}

/// Where the local proxy bridge listens, and the peer it forwards to by
/// default, when bridging is enabled.
pub struct ProxyConfig {
    /// Local port the bridge listens on.
    pub listen_port: u16,
    /// Identifier of the peer requests are forwarded to by default.
    pub default_peer: Vec<u8>,
}

impl View for ProxyConfig {
    type V = ProxyModel;

    open spec fn view(&self) -> ProxyModel {
        ProxyModel { listen_port: self.listen_port, default_peer: self.default_peer@ }
    }
}

/// The model of an optional proxy bridge configuration.
pub open spec fn proxy_opt_model(p: Option<ProxyConfig>) -> Option<ProxyModel> {
    match p {
        Some(c) => Some(c@),
        None => None,
    }
}

/// Aggregate configuration for spawning a node: discovery policy, the
/// identity to run under, and optional bridging.
pub struct BraidIrohConfig {
    /// How the node finds other peers.
    pub discovery: DiscoveryConfig,
    /// The identity the node runs under.
    pub secret_key: Option<PeerIdentity>,
    /// Local bridging, if enabled.
    pub proxy_config: Option<ProxyConfig>,
}

/// Mathematical model of a running node: its secret identity, the public
/// identifier derived from it (the node's address on the network), its
/// subscription registry, and whether its transport session is open.
pub ghost struct NodeModel {
    pub identity: Seq<u8>,
    pub public_id: Seq<u8>,
    pub subs: Seq<SubModel>,
    pub transport_open: bool,
}

impl NodeModel {
    /// The public identifier is derived from the identity, every registered
    /// subscription is well formed, and at most one live subscription
    /// exists per document path.
    pub open spec fn wf(self) -> bool {
        &&& self.identity.len() == DIGEST_LEN
        &&& self.public_id == crate::identity::public_of(self.identity)
        &&& self.public_id.len() == DIGEST_LEN
        &&& forall|i: int| 0 <= i < self.subs.len() ==> (#[trigger] self.subs[i]).wf()
        &&& forall|i: int, j: int|
            0 <= i < j < self.subs.len() && self.subs[i].live() && self.subs[j].live()
                ==> (#[trigger] self.subs[i]).path != (#[trigger] self.subs[j]).path
    }

    /// Whether some live subscription serves `path`.
    pub open spec fn has_live(self, path: Seq<u8>) -> bool {
        exists|i: int|
            0 <= i < self.subs.len() && (#[trigger] self.subs[i]).live() && self.subs[i].path
                == path
    }

    /// The handle of the live subscription serving `path`.
    pub open spec fn live_index(self, path: Seq<u8>) -> int {
        choose|i: int|
            0 <= i < self.subs.len() && (#[trigger] self.subs[i]).live() && self.subs[i].path
                == path
    }
}

/// Model of the request handed to the transport on a fresh subscribe: the
/// topic to join and the initial contact addresses.
pub ghost struct JoinModel {
    pub topic: Seq<u8>,
    pub bootstrap: Seq<Seq<u8>>,
}

/// A request for the transport to join a topic with the given bootstrap
/// peers; produced only when a fresh subscription is created.
pub struct JoinRequest {
    /// The topic to join.
    pub topic: Vec<u8>,
    /// Initial contact addresses; may be empty.
    pub bootstrap: Vec<Vec<u8>>,
}

impl View for JoinRequest {
    type V = JoinModel;

    open spec fn view(&self) -> JoinModel {
        JoinModel { topic: self.topic@, bootstrap: self.bootstrap.deep_view() }
    }
}

/// What `subscribe` does to a node: an empty or overlong path is rejected
/// outright with `InvalidPath`; on a node whose transport session is closed
/// nothing can be joined, so `JoinFailed` comes back; a path with a live
/// subscription returns that subscription's handle and asks the transport
/// for nothing; any other path registers a fresh `Joining` subscription and
/// asks the transport for one join.
pub open spec fn subscribe_transition(m: NodeModel, path: Seq<u8>, boot: Seq<Seq<u8>>) -> (
    NodeModel,
    Result<(int, Option<JoinModel>), BraidError>,
) {
    if path.len() == 0 || path.len() > MAX_PATH_LEN {
        (m, Err(BraidError::InvalidPath))
    } else if !m.transport_open {
        (m, Err(BraidError::JoinFailed))
    } else if m.has_live(path) {
        (m, Ok((m.live_index(path), None)))
    } else {
        let sub = SubModel {
            path,
            topic: topic_of(path),
            bootstrap: boot,
            status: SubStatus::Joining,
            next_token: 0,
        };
        (
            NodeModel { subs: m.subs.push(sub), ..m },
            Ok(
                (
                    m.subs.len() as int,
                    Some(JoinModel { topic: topic_of(path), bootstrap: boot }),
                ),
            ),
        )
    }
}

/// What `unsubscribe` does: an empty path is rejected; a live subscription
/// for the path is closed and its topic returned for the transport to leave;
/// otherwise nothing changes and nothing is left.
pub open spec fn unsubscribe_transition(m: NodeModel, path: Seq<u8>) -> (
    NodeModel,
    Result<Option<Seq<u8>>, BraidError>,
) {
    if path.len() == 0 {
        (m, Err(BraidError::InvalidPath))
    } else if m.has_live(path) {
        let i = m.live_index(path);
        (
            NodeModel { subs: m.subs.update(i, m.subs[i].closed()), ..m },
            Ok(Some(m.subs[i].topic)),
        )
    } else {
        (m, Ok(None))
    }
}

/// What the transport's join confirmation does: a `Joining` subscription
/// becomes `Active`; anything else is left untouched.
pub open spec fn confirm_join_transition(m: NodeModel, handle: int) -> NodeModel {
    if 0 <= handle < m.subs.len() && m.subs[handle].status == SubStatus::Joining {
        NodeModel {
            subs: m.subs.update(handle, SubModel { status: SubStatus::Active, ..m.subs[handle] }),
            ..m
        }
    } else {
        m
    }
}

/// What a failed transport join does: a `Joining` subscription is closed;
/// anything else is left untouched.
pub open spec fn fail_join_transition(m: NodeModel, handle: int) -> NodeModel {
    if 0 <= handle < m.subs.len() && m.subs[handle].status == SubStatus::Joining {
        NodeModel { subs: m.subs.update(handle, m.subs[handle].closed()), ..m }
    } else {
        m
    }
}

/// What delivering inbound topic bytes to a subscription yields: nothing for
/// an unknown handle or a closed subscription; nothing for bytes that do not
/// decode; nothing for a frame whose path belongs to another topic; and the
/// decoded frame otherwise. Delivery never changes the node.
pub open spec fn deliver_spec(m: NodeModel, handle: int, b: Seq<u8>) -> Option<FrameModel> {
    if !(0 <= handle < m.subs.len()) {
        None
    } else if !m.subs[handle].live() {
        None
    } else {
        match decode_spec(b) {
            Err(_) => None,
            Ok(f) => if topic_of(f.path) == m.subs[handle].topic {
                Some(f)
            } else {
                None
            },
        }
    }
}

/// What publishing a payload does: a dead subscription or a closed transport
/// cannot publish; an overlong payload is rejected; otherwise the frame is
/// serialized with the node's public identifier as origin and the
/// subscription's next ordering token, which then advances (saturating at
/// its maximum).
pub open spec fn publish_transition(m: NodeModel, handle: int, payload: Seq<u8>) -> (
    NodeModel,
    Result<Seq<u8>, BraidError>,
) {
    if !(0 <= handle < m.subs.len()) || !m.subs[handle].live() || !m.transport_open {
        (m, Err(BraidError::JoinFailed))
    } else if payload.len() > MAX_PAYLOAD_LEN {
        (m, Err(BraidError::MalformedFrame))
    } else {
        let s = m.subs[handle];
        let f = FrameModel { origin: m.public_id, token: s.next_token, path: s.path, payload };
        let bumped: u64 = if s.next_token == u64::MAX {
            u64::MAX
        } else {
            (s.next_token + 1) as u64
        };
        (
            NodeModel { subs: m.subs.update(handle, SubModel { next_token: bumped, ..s }), ..m },
            Ok(frame_bytes(f)),
        )
    }
}

/// The registry with every subscription's stream ended.
pub open spec fn closed_subs(subs: Seq<SubModel>) -> Seq<SubModel> {
    subs.map_values(|s: SubModel| s.closed())
}

/// What `shutdown` does: every subscription is closed and the transport
/// session with them.
pub open spec fn shutdown_model(m: NodeModel) -> NodeModel {
    NodeModel { subs: closed_subs(m.subs), transport_open: false, ..m }
}

/// The topics whose membership a shutdown releases: those of the still-live
/// subscriptions, in registry order.
pub open spec fn live_topics(subs: Seq<SubModel>) -> Seq<Seq<u8>>
    decreases subs.len(),
{
    if subs.len() == 0 {
        Seq::empty()
    } else {
        live_topics(subs.drop_last()) + if subs.last().live() {
            seq![subs.last().topic]
        } else {
            Seq::empty()
        }
    }
}

/// A running node: its immutable identity and derived public identifier,
/// its subscription registry, its transport session, and the configuration
/// it was spawned with.
pub struct BraidIrohNode {
    identity: PeerIdentity,
    public_id: Vec<u8>,
    subs: Vec<Subscription>,
    transport_open: bool,
    /// Discovery policy handed to the transport at spawn time.
    pub discovery: DiscoveryConfig,
    /// Bridging configuration, if bridging is enabled.
    pub proxy_config: Option<ProxyConfig>,
}

impl View for BraidIrohNode {
    type V = NodeModel;

    closed spec fn view(&self) -> NodeModel {
        NodeModel {
            identity: self.identity@,
            public_id: self.public_id@,
            subs: Seq::new(self.subs@.len(), |i: int| self.subs@[i]@),
            transport_open: self.transport_open,
        }
    }
}

impl BraidIrohNode {
    /// The bridging configuration the node was spawned with.
    pub closed spec fn proxy_model(&self) -> Option<ProxyModel> {
        proxy_opt_model(self.proxy_config)
    }

    /// The discovery policy the node was spawned with.
    pub closed spec fn discovery_model(&self) -> crate::discovery::DiscoveryModel {
        self.discovery@
    }

    /// Starts a node from its configuration: the registry is empty and the
    /// transport session open. The identity must already be resolved; the
    /// caller binds the actual transport and reports its own failure.
    pub fn spawn(config: BraidIrohConfig) -> (n: BraidIrohNode)
        requires
            config.secret_key matches Some(k) && k.wf(),
        ensures
            n@.identity == config.secret_key->0@,
            n@.subs =~= Seq::<SubModel>::empty(),
            n@.transport_open,
            n@.wf(),
            n.proxy_model() == proxy_opt_model(config.proxy_config),
            n.discovery_model() == config.discovery@,
    {
        let BraidIrohConfig { discovery, secret_key, proxy_config } = config;
        let identity = match secret_key {
            Some(k) => k,
            None => { proof { assert(false); } unreached() },
        };
        let public_id = crate::identity::public_id_of(identity.key_bytes());
        BraidIrohNode {
            identity,
            public_id,
            subs: Vec::new(),
            transport_open: true,
            discovery,
            proxy_config,
        }
    }

    /// The number of registered subscriptions; handles are indexes below it.
    pub fn sub_count(&self) -> (r: usize)
        ensures
            r == self@.subs.len(),
    {
        self.subs.len()
    }

    /// The status of the subscription behind a handle.
    pub fn sub_status(&self, handle: usize) -> (r: SubStatus)
        requires
            handle < self@.subs.len(),
        ensures
            r == self@.subs[handle as int].status,
    {
        self.subs[handle].status
    }

    /// The node's secret identity.
    pub fn identity(&self) -> (r: &PeerIdentity)
        ensures
            r@ == self@.identity,
    {
        &self.identity
    }

    /// The node's public identifier: its address on the network, as other
    /// peers see it in frame origins and bootstrap lists.
    pub fn public_id(&self) -> (r: &[u8])
        ensures
            r@ == self@.public_id,
    {
        self.public_id.as_slice()
    }

    /// Binds `path` to its topic: returns the live subscription's handle if
    /// one exists (idempotent, no second join), and otherwise registers a
    /// fresh `Joining` subscription and returns the join request the caller
    /// must hand to the transport. Exactly `subscribe_transition`.
    pub fn subscribe(&mut self, path: &[u8], bootstrap: Vec<Vec<u8>>) -> (r: Result<
        (usize, Option<JoinRequest>),
        BraidError,
    >)
        requires
            old(self)@.wf(),
        ensures
            final(self)@.wf(),
            final(self).proxy_model() == old(self).proxy_model(),
            final(self).discovery_model() == old(self).discovery_model(),
            ({
                let (m2, rr) = subscribe_transition(old(self)@, path@, bootstrap.deep_view());
                &&& final(self)@ == m2
                &&& match (r, rr) {
                    (Ok((h, a)), Ok((sh, sa))) => h as int == sh && (match (a, sa) {
                        (Some(jr), Some(jm)) => jr@ == jm,
                        (None, None) => true,
                        _ => false,
                    }),
                    (Err(e), Err(se)) => e == se,
                    _ => false,
                }
            }),
    {
        if path.len() == 0 || path.len() > MAX_PATH_LEN {
            return Err(BraidError::InvalidPath);
        }
        if !self.transport_open {
            return Err(BraidError::JoinFailed);
        }
        let ghost m = self@;
        proof {
            assert(m.transport_open);
        }
        let mut i: usize = 0;
        while i < self.subs.len()
            invariant
                *self == *old(self),
                m == self@,
                m.transport_open,
                m.wf(),
                i <= m.subs.len(),
                forall|j: int|
                    0 <= j < i ==> !((#[trigger] m.subs[j]).live() && m.subs[j].path == path@),
            decreases m.subs.len() - i,
        {
            let is_live = self.subs[i].status != SubStatus::Closed;
            if is_live && bytes_eq(self.subs[i].path.as_slice(), path) {
                proof {
                    assert(m.subs[i as int].live() && m.subs[i as int].path == path@);
                    assert(m.has_live(path@));
                    let k = m.live_index(path@);
                    assert(0 <= k < m.subs.len() && m.subs[k].live() && m.subs[k].path == path@);
                    if k < i as int {
                        assert(m.subs[k].path != m.subs[i as int].path);
                    } else if k > i as int {
                        assert(m.subs[i as int].path != m.subs[k].path);
                    }
                    assert(k == i as int);
                    assert(path@.len() > 0 && path@.len() <= MAX_PATH_LEN);
                    assert(m.transport_open);
                    let (m2, rr) = subscribe_transition(m, path@, bootstrap.deep_view());
                    assert(m2 == m);
                    assert(rr == Ok::<(int, Option<JoinModel>), BraidError>((k, None)));
                }
                return Ok((i, None));
            }
            i = i + 1;
        }
        proof {
            assert(!m.has_live(path@)) by {
                if m.has_live(path@) {
                    let k = choose|k: int|
                        0 <= k < m.subs.len() && (#[trigger] m.subs[k]).live() && m.subs[k].path
                            == path@;
                    assert(!(m.subs[k].live() && m.subs[k].path == path@));
                }
            }
        }
        let topic = derive_topic(path);
        let mut join_topic: Vec<u8> = Vec::new();
        append_bytes(&mut join_topic, topic.as_slice());
        let mut path_vec: Vec<u8> = Vec::new();
        append_bytes(&mut path_vec, path);
        let join_boot = clone_addresses(&bootstrap);
        let handle = self.subs.len();
        let sub = Subscription {
            path: path_vec,
            topic,
            bootstrap,
            status: SubStatus::Joining,
            next_token: 0,
        };
        self.subs.push(sub);
        let join = JoinRequest { topic: join_topic, bootstrap: join_boot };
        proof {
            let (m2, rr) = subscribe_transition(m, path@, join.bootstrap.deep_view());
            assert(self@.subs =~= m2.subs);
            assert forall|a: int, b: int|
                0 <= a < b < self@.subs.len() && self@.subs[a].live() && self@.subs[b].live()
                    implies self@.subs[a].path != self@.subs[b].path by {
                if b == m.subs.len() as int {
                    assert(!(m.subs[a].live() && m.subs[a].path == path@));
                }
            }
        }
        Ok((handle, Some(join)))
    }

    /// Ends the live subscription for `path`, if any: its status becomes
    /// `Closed`, its stream delivers nothing further, and its topic is
    /// returned for the transport to leave. Unknown paths change nothing.
    /// Exactly `unsubscribe_transition`.
    pub fn unsubscribe(&mut self, path: &[u8]) -> (r: Result<Option<Vec<u8>>, BraidError>)
        requires
            old(self)@.wf(),
        ensures
            final(self)@.wf(),
            ({
                let (m2, rr) = unsubscribe_transition(old(self)@, path@);
                &&& final(self)@ == m2
                &&& match (r, rr) {
                    (Ok(Some(t)), Ok(Some(st))) => t@ == st,
                    (Ok(None), Ok(None)) => true,
                    (Err(e), Err(se)) => e == se,
                    _ => false,
                }
            }),
    {
        if path.len() == 0 {
            return Err(BraidError::InvalidPath);
        }
        let ghost m = self@;
        let mut i: usize = 0;
        while i < self.subs.len()
            invariant
                *self == *old(self),
                m == self@,
                m.wf(),
                path@.len() > 0,
                i <= m.subs.len(),
                forall|j: int|
                    0 <= j < i ==> !((#[trigger] m.subs[j]).live() && m.subs[j].path == path@),
            decreases m.subs.len() - i,
        {
            let is_live = self.subs[i].status != SubStatus::Closed;
            if is_live && bytes_eq(self.subs[i].path.as_slice(), path) {
                proof {
                    assert(m.subs[i as int].live() && m.subs[i as int].path == path@);
                    assert(m.has_live(path@));
                    let k = m.live_index(path@);
                    assert(0 <= k < m.subs.len() && m.subs[k].live() && m.subs[k].path == path@);
                    if k < i as int {
                        assert(m.subs[k].path != m.subs[i as int].path);
                    } else if k > i as int {
                        assert(m.subs[i as int].path != m.subs[k].path);
                    }
                    assert(k == i as int);
                }
                let mut topic_copy: Vec<u8> = Vec::new();
                append_bytes(&mut topic_copy, self.subs[i].topic.as_slice());
                let mut tmp = Subscription {
                    path: Vec::new(),
                    topic: Vec::new(),
                    bootstrap: Vec::new(),
                    status: SubStatus::Closed,
                    next_token: 0,
                };
                self.subs.set_and_swap(i, &mut tmp);
                tmp.status = SubStatus::Closed;
                self.subs.set_and_swap(i, &mut tmp);
                proof {
                    assert(self@.subs =~= m.subs.update(i as int, m.subs[i as int].closed()));
                    assert forall|a: int, b: int|
                        0 <= a < b < self@.subs.len() && self@.subs[a].live()
                            && self@.subs[b].live() implies self@.subs[a].path
                        != self@.subs[b].path by {
                        assert(a != i as int && b != i as int);
                        assert(m.subs[a].path != m.subs[b].path);
                    }
                }
                return Ok(Some(topic_copy));
            }
            i = i + 1;
        }
        proof {
            assert(!m.has_live(path@)) by {
                if m.has_live(path@) {
                    let k = choose|k: int|
                        0 <= k < m.subs.len() && (#[trigger] m.subs[k]).live() && m.subs[k].path
                            == path@;
                    assert(!(m.subs[k].live() && m.subs[k].path == path@));
                }
            }
        }
        Ok(None)
    }

    /// Records the transport's confirmation of topic membership: a `Joining`
    /// subscription becomes `Active`; any other handle is left untouched.
    /// Exactly `confirm_join_transition`.
    pub fn confirm_join(&mut self, handle: usize)
        requires
            old(self)@.wf(),
        ensures
            final(self)@.wf(),
            final(self)@ == confirm_join_transition(old(self)@, handle as int),
    {
        let ghost m = self@;
        if handle < self.subs.len() {
            let st = self.subs[handle].status;
            if st == SubStatus::Joining {
                let mut tmp = Subscription {
                    path: Vec::new(),
                    topic: Vec::new(),
                    bootstrap: Vec::new(),
                    status: SubStatus::Closed,
                    next_token: 0,
                };
                self.subs.set_and_swap(handle, &mut tmp);
                tmp.status = SubStatus::Active;
                self.subs.set_and_swap(handle, &mut tmp);
                proof {
                    assert(self@.subs =~= m.subs.update(
                        handle as int,
                        SubModel { status: SubStatus::Active, ..m.subs[handle as int] },
                    ));
                    assert forall|a: int, b: int|
                        0 <= a < b < self@.subs.len() && self@.subs[a].live()
                            && self@.subs[b].live() implies self@.subs[a].path
                        != self@.subs[b].path by {
                        assert(m.subs[a].live() && m.subs[b].live());
                        assert(m.subs[a].path != m.subs[b].path);
                    }
                }
            }
        }
    }

    /// Records a failed transport join: a `Joining` subscription is closed;
    /// any other handle is left untouched. Exactly `fail_join_transition`.
    pub fn fail_join(&mut self, handle: usize)
        requires
            old(self)@.wf(),
        ensures
            final(self)@.wf(),
            final(self)@ == fail_join_transition(old(self)@, handle as int),
    {
        let ghost m = self@;
        if handle < self.subs.len() {
            let st = self.subs[handle].status;
            if st == SubStatus::Joining {
                let mut tmp = Subscription {
                    path: Vec::new(),
                    topic: Vec::new(),
                    bootstrap: Vec::new(),
                    status: SubStatus::Closed,
                    next_token: 0,
                };
                self.subs.set_and_swap(handle, &mut tmp);
                tmp.status = SubStatus::Closed;
                self.subs.set_and_swap(handle, &mut tmp);
                proof {
                    assert(self@.subs =~= m.subs.update(
                        handle as int,
                        m.subs[handle as int].closed(),
                    ));
                    assert forall|a: int, b: int|
                        0 <= a < b < self@.subs.len() && self@.subs[a].live()
                            && self@.subs[b].live() implies self@.subs[a].path
                        != self@.subs[b].path by {
                        assert(a != handle as int && b != handle as int);
                        assert(m.subs[a].path != m.subs[b].path);
                    }
                }
            }
        }
    }

    /// Hands one batch of inbound topic bytes to a subscription. A frame
    /// that decodes and belongs to the subscription's topic is yielded; a
    /// malformed or truncated frame is dropped and the stream continues; a
    /// closed subscription or unknown handle yields nothing. The node is
    /// never changed. Exactly `deliver_spec`.
    pub fn deliver(&self, handle: usize, bytes: &[u8]) -> (r: Option<UpdateFrame>)
        ensures
            match r {
                Some(f) => deliver_spec(self@, handle as int, bytes@) == Some(f@),
                None => deliver_spec(self@, handle as int, bytes@) is None,
            },
    {
        if handle >= self.subs.len() {
            return None;
        }
        if self.subs[handle].status == SubStatus::Closed {
            return None;
        }
        match decode(bytes) {
            Err(_) => None,
            Ok(f) => {
                let t = derive_topic(f.path.as_slice());
                if bytes_eq(t.as_slice(), self.subs[handle].topic.as_slice()) {
                    Some(f)
                } else {
                    None
                }
            },
        }
    }

    /// Serializes a payload as the next update on a subscription: the frame
    /// carries this node's public identifier as origin and the
    /// subscription's next ordering token, which then advances (saturating
    /// at its maximum). Exactly `publish_transition`.
    pub fn publish(&mut self, handle: usize, payload: &[u8]) -> (r: Result<Vec<u8>, BraidError>)
        requires
            old(self)@.wf(),
            handle < old(self)@.subs.len(),
        ensures
            final(self)@.wf(),
            ({
                let (m2, rr) = publish_transition(old(self)@, handle as int, payload@);
                &&& final(self)@ == m2
                &&& match (r, rr) {
                    (Ok(b), Ok(sb)) => b@ == sb,
                    (Err(e), Err(se)) => e == se,
                    _ => false,
                }
            }),
    {
        let ghost m = self@;
        if self.subs[handle].status == SubStatus::Closed || !self.transport_open {
            return Err(BraidError::JoinFailed);
        }
        if payload.len() > MAX_PAYLOAD_LEN {
            return Err(BraidError::MalformedFrame);
        }
        let mut origin: Vec<u8> = Vec::new();
        append_bytes(&mut origin, self.public_id.as_slice());
        let mut path_copy: Vec<u8> = Vec::new();
        append_bytes(&mut path_copy, self.subs[handle].path.as_slice());
        let mut payload_copy: Vec<u8> = Vec::new();
        append_bytes(&mut payload_copy, payload);
        let token = self.subs[handle].next_token;
        let frame = UpdateFrame { origin, token, path: path_copy, payload: payload_copy };
        proof {
            assert(frame@.origin =~= m.public_id);
            assert(frame@.path =~= m.subs[handle as int].path);
            assert(frame@.payload =~= payload@);
        }
        let bytes = encode(&frame);
        let new_token: u64 = if token == u64::MAX {
            u64::MAX
        } else {
            token + 1
        };
        let mut tmp = Subscription {
            path: Vec::new(),
            topic: Vec::new(),
            bootstrap: Vec::new(),
            status: SubStatus::Closed,
            next_token: 0,
        };
        self.subs.set_and_swap(handle, &mut tmp);
        tmp.next_token = new_token;
        self.subs.set_and_swap(handle, &mut tmp);
        proof {
            assert(self@.subs =~= m.subs.update(
                handle as int,
                SubModel { next_token: new_token, ..m.subs[handle as int] },
            ));
            assert forall|a: int, b: int|
                0 <= a < b < self@.subs.len() && self@.subs[a].live()
                    && self@.subs[b].live() implies self@.subs[a].path != self@.subs[b].path by {
                assert(m.subs[a].live() && m.subs[b].live());
                assert(m.subs[a].path != m.subs[b].path);
            }
        }
        Ok(bytes)
    }

    /// Tears the node down: every subscription is closed (their streams end)
    /// and then the transport session, and the topics of the subscriptions
    /// that were still live are returned for the transport to leave, in
    /// registry order. Never fails, and doing it twice is a no-op. Exactly
    /// `shutdown_model`.
    pub fn shutdown(&mut self) -> (r: Vec<Vec<u8>>)
        requires
            old(self)@.wf(),
        ensures
            final(self)@.wf(),
            final(self)@ == shutdown_model(old(self)@),
            r.deep_view() == live_topics(old(self)@.subs),
    {
        let ghost m = self@;
        let mut topics: Vec<Vec<u8>> = Vec::new();
        let mut i: usize = 0;
        while i < self.subs.len()
            invariant
                m.wf(),
                self@.identity == m.identity,
                self@.public_id == m.public_id,
                self@.transport_open == m.transport_open,
                self@.subs.len() == m.subs.len(),
                i <= m.subs.len(),
                forall|j: int| 0 <= j < i ==> self@.subs[j] == (#[trigger] m.subs[j]).closed(),
                forall|j: int| i <= j < m.subs.len() ==> self@.subs[j] == m.subs[j],
                topics.deep_view() == live_topics(m.subs.take(i as int)),
            decreases m.subs.len() - i,
        {
            let is_live = self.subs[i].status != SubStatus::Closed;
            let ghost pre_topics = topics.deep_view();
            if is_live {
                let mut t: Vec<u8> = Vec::new();
                append_bytes(&mut t, self.subs[i].topic.as_slice());
                topics.push(t);
                proof {
                    assert(topics.deep_view() =~~= pre_topics + seq![m.subs[i as int].topic]);
                }
            }
            let mut tmp = Subscription {
                path: Vec::new(),
                topic: Vec::new(),
                bootstrap: Vec::new(),
                status: SubStatus::Closed,
                next_token: 0,
            };
            self.subs.set_and_swap(i, &mut tmp);
            tmp.status = SubStatus::Closed;
            self.subs.set_and_swap(i, &mut tmp);
            proof {
                let cur = m.subs.take(i + 1);
                assert(cur.drop_last() =~= m.subs.take(i as int));
                assert(cur.last() == m.subs[i as int]);
                assert(topics.deep_view() == live_topics(cur));
                assert(self@.subs[i as int] =~~= m.subs[i as int].closed());
            }
            i = i + 1;
        }
        self.transport_open = false;
        proof {
            assert(m.subs.take(m.subs.len() as int) =~= m.subs);
            assert(self@.subs =~= closed_subs(m.subs));
            assert(self@ == shutdown_model(m));
            assert forall|a: int| 0 <= a < self@.subs.len() implies (
            #[trigger] self@.subs[a]).wf() by {
                assert(m.subs[a].wf());
            }
        }
        topics
    }

    /// The node's printable identifier: its public identifier in
    /// lower-case hexadecimal.
    pub fn node_id(&self) -> (r: Vec<u8>)
        ensures
            r@ == crate::util::hex_of(self@.public_id),
    {
        crate::util::to_hex(self.public_id.as_slice())
    }
}

/// Subscribing preserves the node's well-formedness.
pub proof fn lemma_subscribe_preserves_wf(m: NodeModel, path: Seq<u8>, boot: Seq<Seq<u8>>)
    requires
        m.wf(),
    ensures
        subscribe_transition(m, path, boot).0.wf(),
{
    let (m2, rr) = subscribe_transition(m, path, boot);
    if !(path.len() == 0 || path.len() > MAX_PATH_LEN) && m.transport_open && !m.has_live(path) {
        assert forall|a: int| 0 <= a < m2.subs.len() implies (#[trigger] m2.subs[a]).wf() by {
            if a < m.subs.len() {
                assert(m.subs[a].wf());
            }
        }
        assert forall|a: int, b: int|
            0 <= a < b < m2.subs.len() && m2.subs[a].live() && m2.subs[b].live() implies (
        #[trigger] m2.subs[a]).path != (#[trigger] m2.subs[b]).path by {
            if b == m.subs.len() as int {
                assert(!(m.subs[a].live() && m.subs[a].path == path));
            } else {
                assert(m.subs[a].path != m.subs[b].path);
            }
        }
    }
}

/// Subscribing twice to the same path is idempotent: if the first call
/// succeeds, the second returns the same handle, changes nothing, and asks
/// the transport for no second join.
pub proof fn law_subscribe_idempotent(
    m: NodeModel,
    path: Seq<u8>,
    boot1: Seq<Seq<u8>>,
    boot2: Seq<Seq<u8>>,
)
    requires
        m.wf(),
    ensures
        ({
            let (m1, r1) = subscribe_transition(m, path, boot1);
            let (m2, r2) = subscribe_transition(m1, path, boot2);
            r1 is Ok ==> {
                &&& m2 == m1
                &&& r2 == Ok::<(int, Option<JoinModel>), BraidError>((r1->Ok_0.0, None))
            }
        }),
{
    let (m1, r1) = subscribe_transition(m, path, boot1);
    let (m2, r2) = subscribe_transition(m1, path, boot2);
    if r1 is Ok {
        lemma_subscribe_preserves_wf(m, path, boot1);
        if !m.has_live(path) {
            let n = m.subs.len() as int;
            assert(m1.subs[n].live() && m1.subs[n].path == path);
            assert(m1.has_live(path));
            let k = m1.live_index(path);
            assert(0 <= k < m1.subs.len() && m1.subs[k].live() && m1.subs[k].path == path);
            if k < n {
                assert(m.subs[k].live() && m.subs[k].path == path);
                assert(m.has_live(path));
            }
            assert(k == n);
        }
    }
}

/// Subscribing to an empty path fails with `InvalidPath`: the node is
/// unchanged and the transport is asked for nothing.
pub proof fn law_empty_path_rejected(m: NodeModel, boot: Seq<Seq<u8>>)
    ensures
        ({
            let (m1, r) = subscribe_transition(m, Seq::empty(), boot);
            &&& m1 == m
            &&& r == Err::<(int, Option<JoinModel>), BraidError>(BraidError::InvalidPath)
        }),
{
}

/// After an unsubscribe, the subscription that served the path delivers
/// nothing further, whatever bytes the transport still holds for its topic.
pub proof fn law_unsubscribe_stops_delivery(
    m: NodeModel,
    path: Seq<u8>,
    handle: int,
    bytes: Seq<u8>,
)
    requires
        m.wf(),
    ensures
        ({
            let (m1, r) = unsubscribe_transition(m, path);
            (0 <= handle < m1.subs.len() && m1.subs[handle].path == path) ==> deliver_spec(
                m1,
                handle,
                bytes,
            ) is None
        }),
{
    let (m1, r) = unsubscribe_transition(m, path);
    if 0 <= handle < m1.subs.len() && m1.subs[handle].path == path {
        if m1.subs[handle].live() {
            if path.len() == 0 {
                assert(m.subs[handle].wf());
            } else if m.has_live(path) {
                let k = m.live_index(path);
                assert(0 <= k < m.subs.len() && m.subs[k].live() && m.subs[k].path == path);
                if handle == k {
                    assert(!m1.subs[handle].live());
                } else {
                    assert(m1.subs[handle] == m.subs[handle]);
                    if handle < k {
                        assert(m.subs[handle].path != m.subs[k].path);
                    } else {
                        assert(m.subs[k].path != m.subs[handle].path);
                    }
                }
            } else {
                assert(m.subs[handle].live() && m.subs[handle].path == path);
                assert(m.has_live(path));
            }
            assert(false);
        }
    }
}

/// Every subscription of all-closed registries contributes no topic.
proof fn lemma_live_topics_all_closed(subs: Seq<SubModel>)
    requires
        forall|i: int| 0 <= i < subs.len() ==> !(#[trigger] subs[i]).live(),
    ensures
        live_topics(subs) == Seq::<Seq<u8>>::empty(),
    decreases subs.len(),
{
    if subs.len() > 0 {
        lemma_live_topics_all_closed(subs.drop_last());
        assert(!subs[subs.len() - 1].live());
        assert(live_topics(subs) =~= Seq::<Seq<u8>>::empty());
    }
}

/// Shutting down closes every subscription and the transport session, never
/// fails, and is idempotent: a second shutdown changes nothing and releases
/// no further topics.
pub proof fn law_shutdown_closes_everything(m: NodeModel)
    ensures
        ({
            let m1 = shutdown_model(m);
            &&& m1.subs.len() == m.subs.len()
            &&& forall|i: int|
                0 <= i < m1.subs.len() ==> (#[trigger] m1.subs[i]).status == SubStatus::Closed
            &&& !m1.transport_open
            &&& shutdown_model(m1) == m1
            &&& live_topics(m1.subs) == Seq::<Seq<u8>>::empty()
        }),
{
    let m1 = shutdown_model(m);
    assert(closed_subs(closed_subs(m.subs)) =~= closed_subs(m.subs));
    lemma_live_topics_all_closed(m1.subs);
}

/// No transition leaves `Closed`: once a subscription is closed, every
/// operation of the engine leaves it closed.
pub proof fn law_closed_is_final(
    m: NodeModel,
    path: Seq<u8>,
    boot: Seq<Seq<u8>>,
    handle: int,
    payload: Seq<u8>,
    i: int,
)
    requires
        m.wf(),
        0 <= i < m.subs.len(),
        m.subs[i].status == SubStatus::Closed,
    ensures
        subscribe_transition(m, path, boot).0.subs[i].status == SubStatus::Closed,
        unsubscribe_transition(m, path).0.subs[i].status == SubStatus::Closed,
        confirm_join_transition(m, handle).subs[i].status == SubStatus::Closed,
        fail_join_transition(m, handle).subs[i].status == SubStatus::Closed,
        publish_transition(m, handle, payload).0.subs[i].status == SubStatus::Closed,
        shutdown_model(m).subs[i].status == SubStatus::Closed,
{
    if path.len() > 0 && m.has_live(path) {
        let k = m.live_index(path);
        assert(m.subs[k].live());
        assert(k != i);
    }
}

/// Ordering tokens of successive publishes on one subscription are
/// monotonic: both frames decode, both carry the node's public identifier
/// as origin, and the second frame's token is one above the first's (below
/// the saturation point).
pub proof fn law_publish_tokens_monotonic(m: NodeModel, handle: int, p1: Seq<u8>, p2: Seq<u8>)
    requires
        m.wf(),
        0 <= handle < m.subs.len(),
        m.subs[handle].live(),
        m.transport_open,
        p1.len() <= MAX_PAYLOAD_LEN,
        p2.len() <= MAX_PAYLOAD_LEN,
        m.subs[handle].next_token < u64::MAX,
    ensures
        ({
            let (m1, r1) = publish_transition(m, handle, p1);
            let (m2, r2) = publish_transition(m1, handle, p2);
            &&& r1 is Ok
            &&& r2 is Ok
            &&& (decode_spec(r1->Ok_0) matches Ok(f1) && f1.token == m.subs[handle].next_token
                && f1.origin == m.public_id)
            &&& (decode_spec(r2->Ok_0) matches Ok(f2) && f2.token == m.subs[handle].next_token
                + 1 && f2.origin == m.public_id)
        }),
{
    let (m1, r1) = publish_transition(m, handle, p1);
    let (m2, r2) = publish_transition(m1, handle, p2);
    let s = m.subs[handle];
    let f1 = FrameModel { origin: m.public_id, token: s.next_token, path: s.path, payload: p1 };
    assert(s.wf());
    assert(f1.wf());
    crate::protocol::lemma_decode_encode(f1);
    let s2 = m1.subs[handle];
    let f2 = FrameModel { origin: m.public_id, token: s2.next_token, path: s2.path, payload: p2 };
    assert(f2.wf());
    crate::protocol::lemma_decode_encode(f2);
}

/// Copies a list of peer addresses.
fn clone_addresses(addrs: &Vec<Vec<u8>>) -> (r: Vec<Vec<u8>>)
    ensures
        r.deep_view() == addrs.deep_view(),
{
    let mut out: Vec<Vec<u8>> = Vec::new();
    let mut i: usize = 0;
    while i < addrs.len()
        invariant
            i <= addrs@.len(),
            out@.len() == i,
            forall|j: int| 0 <= j < i ==> (#[trigger] out@[j])@ == addrs@[j]@,
        decreases addrs@.len() - i,
    {
        let mut a: Vec<u8> = Vec::new();
        append_bytes(&mut a, addrs[i].as_slice());
        proof {
            assert(a@ =~= addrs@[i as int]@);
        }
        out.push(a);
        i = i + 1;
    }
    proof {
        assert(out.deep_view() =~~= addrs.deep_view());
    }
    out
}

} // verus!
