//! A Rust implementation of the **Simplex BFT consensus** protocol.
//!
//! The crate provides the core consensus algorithm while abstracting away the underlying
//! blockchain state, network transport, and cryptographic primitives behind traits, so that the
//! protocol can be reused across different systems.
use vstd::prelude::*;

pub mod config;
pub mod crypto;
pub mod error;
pub mod message;
pub mod network;
pub mod protocol;
pub mod state;
pub mod types;

pub use config::Config;
pub use crypto::{CryptoProvider, Signer};
pub use error::ConsensusError;
pub use network::Network;
pub use protocol::Simplex;
pub use state::StateMachine;
pub use types::{CommitteeSet, Digest, Height, NodeId};

verus! {

} // verus!
