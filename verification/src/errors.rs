use vstd::prelude::*;

verus! {

/// Errors surfaced by the identity, protocol and subscription engine.
#[derive(Clone, Copy, Debug, PartialEq, Eq, Structural)]
pub enum BraidError {
    /// The document path was empty or malformed.
    InvalidPath,
    /// The transport could not establish topic membership.
    JoinFailed,
    /// An inbound frame was structurally malformed.
    MalformedFrame,
    /// An inbound frame's declared payload length did not match its content.
    TruncatedFrame,
    /// The node's transport could not be started.
    TransportInitFailed,
    /// A join or shutdown wait exceeded its bound.
    Timeout,
}

} // verus!
