use vstd::prelude::*;

use crate::types::{Digest, Height, NodeId};

verus! {

/// Opaque signature bytes. Real implementations will use e.g. ed25519 (64 bytes) or
/// BLS (48/96 bytes).
pub type SignatureBytes = Vec<u8>;

/// Enumeration of all simplex protocol message types.
///
/// The generic parameter `P` is the **payload**: the opaque command / transaction blob
/// that the consensus engine does not interpret.
#[derive(Debug, Clone)]
pub enum Message<P> {
    /// Leader proposes a batch of commands in a given view.
    Proposal(Proposal<P>),
    /// Replicas vote for a proposal they accept.
    Vote(Vote),
    /// Replicas vote for a finalize.
    Finalize(Finalize),
}

/// A batch of commands proposed by the leader of a height.
#[derive(Debug, Clone)]
pub struct Proposal<P> {
    /// The sequence number (height) this proposal targets.
    pub height: Height,
    /// Digest of the parent block / previous proposal.
    pub parent: Digest,
    /// The batch of blocks to be proposed.
    pub payload: Vec<P>,
    /// A justification proving this proposal is safe (e.g. a quorum certificate from the
    /// previous view, or a timeout certificate that triggered the view change).
    pub justification: Justification,
}

/// A replica's vote for a proposal.
#[derive(Debug, Clone)]
pub struct Vote {
    /// The sequence number (height) this vote targets.
    pub height: Height,
    /// Digest of the proposal being voted for.
    pub digest: Digest,
    /// The replica that cast this vote.
    pub voter: NodeId,
    /// A cryptographic signature over the vote.
    pub signature: SignatureBytes,
}

/// A replica's vote to finalize a height.
#[derive(Debug, Clone)]
pub struct Finalize {
    /// The sequence number (height) this vote targets.
    pub height: Height,
    /// The replica that cast this vote.
    pub voter: NodeId,
    /// A cryptographic signature over the vote.
    pub signature: SignatureBytes,
}

/// A replica's signed statement that it timed out in `current_view` and moves to `next_view`.
#[derive(Debug, Clone)]
pub struct Timeout {
    /// The replica that timed out.
    pub sender: NodeId,
    /// The view in which the replica timed out.
    pub current_view: Height,
    /// The view the replica moves to.
    pub next_view: Height,
    /// The highest `(view, sequence)` the replica has voted for, if any.
    pub high_vote: Option<(Height, Height)>,
    /// A cryptographic signature over the timeout.
    pub signature: SignatureBytes,
}

/// A justification that accompanies a proposal so other replicas can verify its safety.
#[derive(Debug, Clone)]
pub enum Justification {
    /// Quorum Certificate: a set of `2f+1` votes for a previous proposal.
    QuorumCertificate(QuorumCert),
    /// Timeout Certificate: `2f+1` timeout messages proving the height change is legitimate.
    TimeoutCertificate(TimeoutCert),
    /// Genesis / empty justification for the very first proposal.
    Genesis,
}

/// A set of `2f+1` votes that certifies a proposal.
#[derive(Debug, Clone)]
pub struct QuorumCert {
    pub height: Height,
    pub digest: Digest,
    pub signatures: Vec<(NodeId, SignatureBytes)>,
}

/// A set of `2f+1` timeout messages that justifies advancing to a new height.
#[derive(Debug, Clone)]
pub struct TimeoutCert {
    pub next_view: Height,
    pub signatures: Vec<(NodeId, SignatureBytes)>,
}

} // verus!
