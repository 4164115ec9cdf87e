use vstd::prelude::*;

use crate::error::ConsensusError;
use crate::types::Digest;

verus! {

/// Abstraction over the replicated state machine (blockchain, KV store, etc.).
///
/// The consensus engine commits commands in total order via `StateMachine::apply`
/// and the host queries the current state digest via `StateMachine::digest`.
pub trait StateMachine<P>: Send + Sync {
    /// Whether this state machine's methods behave as `validation` and `state_digest` say.
    /// An implementation that defines those two functions sets this to `true`; otherwise
    /// nothing is claimed of its results.
    open spec fn obeys_state_machine_spec() -> bool {
        false
    }

    /// What validating `command` in the current state answers: `Ok` where the state machine
    /// accepts it, and otherwise the error with which it rejects it.
    open spec fn validation(&self, command: P) -> Result<(), ConsensusError> {
        arbitrary()
    }

    /// The digest of the current state.
    open spec fn state_digest(&self) -> Digest {
        arbitrary()
    }

    /// Validate a command **without** applying it. Used during proposal verification.
    fn validate(&self, command: &P) -> (r: Result<(), ConsensusError>)
        ensures
            Self::obeys_state_machine_spec() ==> r == self.validation(*command);

    /// Apply a batch of commands in the given total order.
    ///
    /// Returns a digest of the new state after applying this batch.
    fn apply(&mut self, batch: &[P]) -> (r: Result<Digest, ConsensusError>)
        ensures
            Self::obeys_state_machine_spec() ==> (r is Ok ==> r->Ok_0 == final(self).state_digest());

    /// Current state digest.
    fn digest(&self) -> (d: Digest)
        ensures
            Self::obeys_state_machine_spec() ==> d == self.state_digest();
}

} // verus!
