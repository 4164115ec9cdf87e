use vstd::prelude::*;

use crate::error::ConsensusError;
use crate::types::{Digest, NodeId};

verus! {

/// Verification and hashing, provided by the host system so that the consensus engine can
/// check signed messages.
///
/// The consensus core never touches private keys: it only verifies and hashes.
pub trait CryptoProvider: Send + Sync {
    /// Whether this provider's `verify` and `hash` behave as `verification` and `digest_of` say.
    /// An implementation that defines those two functions sets this to `true`; otherwise
    /// nothing is claimed of its results.
    open spec fn obeys_crypto_spec() -> bool {
        false
    }

    /// The digest that `hash` gives for `data`: a hash is a function of its input.
    open spec fn digest_of(&self, data: Seq<u8>) -> Digest {
        arbitrary()
    }

    /// What checking `signature` over `message` under `node`'s public key answers: `Ok` for a
    /// valid signature, and otherwise the error that says why it is not.
    open spec fn verification(&self, node: NodeId, message: Seq<u8>, signature: Seq<u8>) -> Result<
        (),
        ConsensusError,
    > {
        arbitrary()
    }

    /// Verify that `signature` is a valid signature over `message` under `node`'s public key.
    fn verify(&self, node: NodeId, message: &[u8], signature: &[u8]) -> (r: Result<(), ConsensusError>)
        ensures
            Self::obeys_crypto_spec() ==> r == self.verification(node, message@, signature@);

    /// Hash `data` into a 32-byte digest.
    fn hash(&self, data: &[u8]) -> (d: Digest)
        ensures
            Self::obeys_crypto_spec() ==> d == self.digest_of(data@);

    /// Hash the concatenation of two digests (e.g. for a Merkle-like structure).
    fn hash_pair(&self, a: &Digest, b: &Digest) -> (d: Digest)
        ensures
            Self::obeys_crypto_spec() ==> d == self.digest_of(a@ + b@),
    {
        let mut buf: Vec<u8> = Vec::with_capacity(64);
        let mut i: usize = 0;
        while i < 32
            invariant
                0 <= i <= 32,
                buf@ == a@.subrange(0, i as int),
            decreases 32 - i,
        {
            buf.push(a[i]);
            i = i + 1;
        }
        let mut j: usize = 0;
        while j < 32
            invariant
                0 <= j <= 32,
                buf@ == a@ + b@.subrange(0, j as int),
            decreases 32 - j,
        {
            buf.push(b[j]);
            j = j + 1;
        }
        assert(b@.subrange(0, 32) == b@);
        self.hash(buf.as_slice())
    }
}

/// A signer is needed by the node that owns this replica to produce signatures for
/// outgoing messages. Downstream crates wire this to the actual key store.
pub trait Signer: Send + Sync {
    /// Whether this signer's `sign` and `node_id` behave as `refusal`, `signs` and `signer_id`
    /// say.
    /// An implementation that defines those two functions sets this to `true`; otherwise
    /// nothing is claimed of its results.
    open spec fn obeys_signer_spec() -> bool {
        false
    }

    /// The `NodeId` of this signer.
    open spec fn signer_id(&self) -> NodeId {
        arbitrary()
    }

    /// Whether `signature` is a signature of this signer over `message`.
    open spec fn signs(&self, message: Seq<u8>, signature: Seq<u8>) -> bool {
        arbitrary()
    }

    /// The error with which this signer, in its current state, refuses to sign `message`, or
    /// `None` where it signs it.
    open spec fn refusal(&self, message: Seq<u8>) -> Option<ConsensusError> {
        arbitrary()
    }

    /// Sign `message` and return the signature bytes.
    fn sign(&self, message: &[u8]) -> (r: Result<Vec<u8>, ConsensusError>)
        ensures
            Self::obeys_signer_spec() ==> match self.refusal(message@) {
                Some(e) => r == Err::<Vec<u8>, ConsensusError>(e),
                None => r is Ok && self.signs(message@, r->Ok_0@),
            };

    /// The `NodeId` of the signer.
    fn node_id(&self) -> (id: NodeId)
        ensures
            Self::obeys_signer_spec() ==> id == self.signer_id();
}

} // verus!
