use vstd::prelude::*;
use crate::digest::{blake3_of, blake3_digest, DIGEST_LEN};
use crate::protocol::MAX_PATH_LEN;

verus! {

/// Lifecycle of a subscription: `Joining -> Active -> Closed`, with
/// `Joining -> Closed` also allowed; no transition leaves `Closed`.
#[derive(Clone, Copy, Debug, PartialEq, Eq, Structural)]
pub enum SubStatus {
    /// The transport has been asked to join the topic and has not confirmed.
    Joining,
    /// Topic membership is confirmed; updates flow.
    Active,
    /// The subscription is torn down; its stream has ended.
    Closed,
}

/// The gossip topic for a document path: the digest of the path's bytes, so
/// every peer that subscribes to the same path joins the same topic with no
/// prior coordination.
pub open spec fn topic_of(path: Seq<u8>) -> Seq<u8> {
    blake3_of(path)
}

/// Computes the topic identifier for a path.
pub fn derive_topic(path: &[u8]) -> (r: Vec<u8>)
    ensures
        r@ == topic_of(path@),
        r@.len() == DIGEST_LEN,
{
    blake3_digest(path)
}

/// Mathematical model of one subscription: its document path, the topic the
/// path derives to, the bootstrap peers supplied at subscribe time, its
/// lifecycle status, and the ordering token the next published update takes.
pub ghost struct SubModel {
    pub path: Seq<u8>,
    pub topic: Seq<u8>,
    pub bootstrap: Seq<Seq<u8>>,
    pub status: SubStatus,
    pub next_token: u64,
}

impl SubModel {
    /// A subscription still owns its topic membership.
    pub open spec fn live(self) -> bool {
        self.status != SubStatus::Closed
    }

    /// The path is a valid document path and the topic is derived from it.
    pub open spec fn wf(self) -> bool {
        &&& 0 < self.path.len() <= MAX_PATH_LEN
        &&& self.topic == topic_of(self.path)
    }

    /// The same subscription with its stream ended.
    pub open spec fn closed(self) -> SubModel {
        SubModel { status: SubStatus::Closed, ..self }
    }
}

/// One document path's binding to a gossip topic on a running node.
pub struct Subscription {
    /// The document path this subscription serves.
    pub path: Vec<u8>,
    /// The topic identifier derived from the path.
    pub topic: Vec<u8>,
    /// Peer addresses supplied as initial contacts at subscribe time.
    pub bootstrap: Vec<Vec<u8>>,
    /// Where the subscription stands in its lifecycle.
    pub status: SubStatus,
    /// Ordering token assigned to the next locally published update.
    pub next_token: u64,
}

impl View for Subscription {
    type V = SubModel;

    open spec fn view(&self) -> SubModel {
        SubModel {
            path: self.path@,
            topic: self.topic@,
            bootstrap: self.bootstrap.deep_view(),
            status: self.status,
            next_token: self.next_token,
        }
    }
}

} // verus!
