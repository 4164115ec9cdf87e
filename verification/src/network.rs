use vstd::prelude::*;

use crate::error::ConsensusError;
use crate::message::Message;
use crate::types::NodeId;

verus! {

/// The consensus engine's only interaction point with the outside world for message
/// delivery. Implementations may use TCP, gRPC, QUIC, libp2p, etc.
///
/// The engine calls `Network::broadcast` and receives messages via a push-based
/// callback (`MessageHandler`).
pub trait Network<P>: Send + Sync where P: Send + Sync {
    /// Whether this transport's methods keep `handed`, `broadcasts` and `sends` as their
    /// contracts say. An implementation that defines those three records sets this to `true`;
    /// otherwise nothing is claimed of them.
    open spec fn obeys_network_spec() -> bool {
        false
    }

    /// Every message handed to `broadcast` so far, oldest first, delivered or not.
    open spec fn handed(&self) -> Seq<Message<P>> {
        arbitrary()
    }

    /// The messages whose broadcast succeeded so far, oldest first.
    open spec fn broadcasts(&self) -> Seq<Message<P>> {
        arbitrary()
    }

    /// Every recipient and message handed to `send_to` so far, oldest first.
    open spec fn sends(&self) -> Seq<(NodeId, Message<P>)> {
        arbitrary()
    }

    /// Broadcast a protocol message to **all** replicas (including self).
    fn broadcast(&mut self, msg: Message<P>) -> (r: Result<(), ConsensusError>)
        ensures
            Self::obeys_network_spec() ==> {
                &&& final(self).handed() == old(self).handed().push(msg)
                &&& final(self).sends() == old(self).sends()
                &&& r is Ok ==> final(self).broadcasts() == old(self).broadcasts().push(msg)
                &&& r is Err ==> final(self).broadcasts() == old(self).broadcasts()
            };

    /// Send a message to a specific replica.
    fn send_to(&mut self, to: NodeId, msg: Message<P>) -> (r: Result<(), ConsensusError>)
        ensures
            Self::obeys_network_spec() ==> {
                &&& final(self).sends() == old(self).sends().push((to, msg))
                &&& final(self).handed() == old(self).handed()
                &&& final(self).broadcasts() == old(self).broadcasts()
            };
}

/// Consumed by the host to push an incoming message into the consensus engine.
pub trait MessageHandler<P> where P: Send + Sync {
    /// Called by the networking layer when a protocol message arrives for this replica.
    fn handle_message(&mut self, from: NodeId, msg: Message<P>) -> Result<(), ConsensusError>;
}

} // verus!
