use vstd::prelude::*;

use crate::types::Height;

verus! {

/// Errors that can arise during consensus operation.
#[derive(Debug)]
pub enum ConsensusError {
    /// The message could not be verified (bad signature, wrong author, etc.).
    VerificationFailed(String),
    /// The message carries an unsupported or unknown type tag.
    UnknownMessageType,
    /// The view number is too far behind and the message cannot be processed.
    StaleView { msg_view: Height, current_view: Height },
    /// Network / IO error, carrying the transport's own description of it.
    Network(String),
    /// Crypto error (signing, hashing, etc.).
    Crypto(String),
    /// Application state-machine rejected a command.
    StateMachine(String),
}

} // verus!
