use std::sync::{Arc, Mutex};
use std::time::Duration;

use simplex_rs::config::Config;
use simplex_rs::crypto::{CryptoProvider, Signer};
use simplex_rs::error::ConsensusError;
use simplex_rs::message::{Finalize, Justification, Message, Proposal, Timeout, Vote};
use simplex_rs::network::Network;
use simplex_rs::protocol::{assemble_vote, Simplex};
use simplex_rs::state::StateMachine;
use simplex_rs::types::{CommitteeSet, Digest, NodeId};

/// Hash: byte 0 is the length, byte 1 the wrapping sum, the rest copies the first 30 bytes.
struct TestCrypto;

impl CryptoProvider for TestCrypto {
    fn verify(&self, node: NodeId, message: &[u8], signature: &[u8]) -> Result<(), ConsensusError> {
        if signature == expected_signature(node, message).as_slice() {
            Ok(())
        } else {
            Err(ConsensusError::VerificationFailed(format!("bad signature from {}", node)))
        }
    }

    fn hash(&self, data: &[u8]) -> Digest {
        let mut d = [0u8; 32];
        d[0] = data.len() as u8;
        d[1] = data.iter().fold(0u8, |a, b| a.wrapping_add(*b));
        for (i, b) in data.iter().take(30).enumerate() {
            d[i + 2] = *b;
        }
        d
    }
}

fn expected_signature(node: NodeId, message: &[u8]) -> Vec<u8> {
    let mut s = vec![node as u8];
    s.extend_from_slice(message);
    s
}

struct TestSigner {
    id: NodeId,
    fail: bool,
}

impl Signer for TestSigner {
    fn sign(&self, message: &[u8]) -> Result<Vec<u8>, ConsensusError> {
        if self.fail {
            Err(ConsensusError::Crypto("no key".to_string()))
        } else {
            Ok(expected_signature(self.id, message))
        }
    }

    fn node_id(&self) -> NodeId {
        self.id
    }
}

type Outbox = Arc<Mutex<Vec<Message<u32>>>>;

struct TestNetwork {
    sent: Outbox,
    down: bool,
}

impl Network<u32> for TestNetwork {
    fn broadcast(&mut self, msg: Message<u32>) -> Result<(), ConsensusError> {
        if self.down {
            return Err(ConsensusError::Network("link down".to_string()));
        }
        self.sent.lock().unwrap().push(msg);
        Ok(())
    }

    fn send_to(&mut self, _to: NodeId, msg: Message<u32>) -> Result<(), ConsensusError> {
        self.broadcast(msg)
    }
}

/// Accepts even commands only.
struct EvenLedger {
    digest: Digest,
}

impl StateMachine<u32> for EvenLedger {
    fn validate(&self, command: &u32) -> Result<(), ConsensusError> {
        if command % 2 == 0 {
            Ok(())
        } else {
            Err(ConsensusError::StateMachine(format!("odd command {}", command)))
        }
    }

    fn apply(&mut self, batch: &[u32]) -> Result<Digest, ConsensusError> {
        self.digest[0] = self.digest[0].wrapping_add(batch.len() as u8);
        Ok(self.digest)
    }

    fn digest(&self) -> Digest {
        self.digest
    }
}

type Engine = Simplex<u32, TestNetwork, EvenLedger, TestCrypto, TestSigner>;

fn engine_with(id: NodeId, signer_fails: bool, network_down: bool) -> (Engine, Outbox) {
    let config = Config {
        own_id: id,
        replica_set: CommitteeSet { nodes: vec![0, 1, 2, 3], f: 1 },
        view_timeout_base: Duration::from_secs(1),
        max_view_gap: 10,
        max_payload_bytes: 1_048_576,
    };
    let mut state_digest = [0u8; 32];
    state_digest[5] = 42;
    let outbox: Outbox = Arc::new(Mutex::new(Vec::new()));
    let e = Simplex::new(
        config,
        TestNetwork { sent: outbox.clone(), down: network_down },
        EvenLedger { digest: state_digest },
        TestCrypto,
        TestSigner { id, fail: signer_fails },
    );
    (e, outbox)
}

fn engine(id: NodeId) -> Engine {
    engine_with(id, false, false).0
}

fn sent(outbox: &Outbox) -> Vec<Message<u32>> {
    outbox.lock().unwrap().clone()
}

fn proposal(height: u64, payload: Vec<u32>) -> Proposal<u32> {
    Proposal { height, parent: [7u8; 32], payload, justification: Justification::Genesis }
}

fn le(v: u64) -> Vec<u8> {
    v.to_le_bytes().to_vec()
}

#[test]
fn new_engine_starts_at_view_zero() {
    let e = engine(1);
    assert_eq!(e.view(), 0);
    assert_eq!(e.committed_sequence(), 0);
}

#[test]
fn vote_digest_bytes_are_height_then_digest() {
    let e = engine(1);
    let mut digest = [0u8; 32];
    digest[0] = 9;
    digest[31] = 200;
    let bytes = e.vote_digest_bytes(&0x0102_0304_0506_0708, &digest);
    let mut expected = vec![8, 7, 6, 5, 4, 3, 2, 1];
    expected.extend_from_slice(&digest);
    assert_eq!(bytes, expected);
    assert_eq!(bytes.len(), 40);
}

#[test]
fn vote_digest_bytes_tell_votes_apart() {
    let e = engine(1);
    assert_ne!(e.vote_digest_bytes(&1, &[0u8; 32]), e.vote_digest_bytes(&256, &[0u8; 32]));
    assert_ne!(e.vote_digest_bytes(&1, &[0u8; 32]), e.vote_digest_bytes(&1, &[1u8; 32]));
}

#[test]
fn timeout_digest_bytes_layout() {
    let e = engine(1);
    let without = Timeout { sender: 2, current_view: 5, next_view: 6, high_vote: None, signature: vec![] };
    let mut expected = le(5);
    expected.extend(le(6));
    assert_eq!(e.timeout_digest_bytes(&without), expected);

    let with = Timeout { high_vote: Some((3, 9)), ..without.clone() };
    expected.extend(le(3));
    expected.extend(le(9));
    assert_eq!(e.timeout_digest_bytes(&with), expected);
    assert_eq!(e.timeout_digest_bytes(&with).len(), 32);
}

#[test]
fn leader_proposes_on_start_view() {
    // View 5 of four nodes is led by node 1.
    let (mut e, outbox) = engine_with(1, false, false);
    assert!(e.start_view(5).is_ok());
    assert_eq!(e.view(), 5);
    let out = sent(&outbox);
    assert_eq!(out.len(), 1);
    match &out[0] {
        Message::Proposal(p) => {
            assert_eq!(p.height, 5);
            let mut locked = [0u8; 32];
            locked[5] = 42;
            assert_eq!(p.parent, locked);
            assert!(p.payload.is_empty());
            assert!(matches!(p.justification, Justification::Genesis));
        }
        _ => panic!("expected a proposal"),
    }
}

#[test]
fn non_leader_only_moves_view() {
    let (mut e, outbox) = engine_with(2, false, false);
    assert!(e.start_view(5).is_ok());
    assert_eq!(e.view(), 5);
    assert!(e.start_view(5).is_ok());
    assert_eq!(e.view(), 5);
    assert!(sent(&outbox).is_empty());
    assert!(e.start_view(6).is_ok());
    assert_eq!(sent(&outbox).len(), 1);
}

#[test]
fn lower_view_is_refused_as_stale() {
    let (mut e, outbox) = engine_with(2, false, false);
    assert!(e.start_view(7).is_ok());
    let r = e.start_view(6);
    assert!(matches!(r, Err(ConsensusError::StaleView { msg_view: 6, current_view: 7 })));
    assert_eq!(e.view(), 7);
    // View 2 is led by this replica, but it lies behind: no proposal goes out.
    assert!(matches!(e.start_view(2), Err(ConsensusError::StaleView { .. })));
    assert!(sent(&outbox).is_empty());
}

#[test]
fn leader_reports_network_failure() {
    let (mut e, _) = engine_with(1, false, true);
    let r = e.start_view(1);
    assert!(matches!(r, Err(ConsensusError::Network(_))));
    assert_eq!(e.view(), 1);
    // Not the leader of view 2: no broadcast, so no failure.
    assert!(e.start_view(2).is_ok());
}

#[test]
fn valid_proposal_is_voted() {
    let (mut e, outbox) = engine_with(3, false, false);
    let p = proposal(4, vec![2, 4, 6]);
    let bytes = vec![1u8, 2, 3];
    assert!(e.on_message(0, Message::Proposal(p), &bytes).is_ok());
    assert_eq!(e.view(), 0);
    let out = sent(&outbox);
    assert_eq!(out.len(), 1);
    match &out[0] {
        Message::Vote(v) => {
            let digest = TestCrypto.hash(&bytes);
            assert_eq!(v.height, 4);
            assert_eq!(v.digest, digest);
            assert_eq!(v.voter, 3);
            assert_eq!(v.signature, expected_signature(3, &e.vote_digest_bytes(&4, &digest)));
        }
        _ => panic!("expected a vote"),
    }
}

#[test]
fn proposal_with_rejected_command_fails() {
    let (mut e, outbox) = engine_with(3, false, false);
    let p = proposal(4, vec![2, 3, 6]);
    let r = e.on_message(0, Message::Proposal(p), &[1, 2, 3]);
    assert!(matches!(r, Err(ConsensusError::StateMachine(_))));
    assert!(sent(&outbox).is_empty());
}

#[test]
fn proposal_vote_needs_a_signature() {
    let (mut e, outbox) = engine_with(3, true, false);
    let r = e.handle_proposal(0, proposal(4, vec![]), &[9]);
    assert!(matches!(r, Err(ConsensusError::Crypto(_))));
    assert!(sent(&outbox).is_empty());
}

#[test]
fn proposal_vote_needs_the_network() {
    let (mut e, _) = engine_with(3, false, true);
    let r = e.handle_proposal(0, proposal(4, vec![8]), &[9]);
    assert!(matches!(r, Err(ConsensusError::Network(_))));
}

#[test]
fn build_vote_signs_height_and_digest() {
    let e = engine(2);
    let p = proposal(7, vec![]);
    let bytes = [5u8, 6, 7];
    let v = e.build_vote(&p, &bytes).unwrap();
    let digest = TestCrypto.hash(&bytes);
    assert_eq!(v.height, 7);
    assert_eq!(v.digest, digest);
    assert_eq!(v.voter, 2);
    assert_eq!(v.signature, expected_signature(2, &e.vote_digest_bytes(&7, &digest)));
}

#[test]
fn vote_with_good_signature_is_accepted() {
    let mut e = engine(0);
    let digest = [3u8; 32];
    let signed = e.vote_digest_bytes(&9, &digest);
    let vote = Vote { height: 9, digest, voter: 2, signature: expected_signature(2, &signed) };
    assert!(e.on_message(2, Message::Vote(vote), &[]).is_ok());
}

#[test]
fn vote_with_bad_signature_is_refused() {
    let mut e = engine(0);
    let digest = [3u8; 32];
    let signed = e.vote_digest_bytes(&9, &digest);
    let forged = Vote { height: 9, digest, voter: 1, signature: expected_signature(2, &signed) };
    let r = e.on_message(1, Message::Vote(forged), &[]);
    assert!(matches!(r, Err(ConsensusError::VerificationFailed(_))));
    let other_height = Vote { height: 10, digest, voter: 2, signature: expected_signature(2, &signed) };
    assert!(e.handle_vote(2, other_height).is_err());
}

#[test]
fn finalize_is_accepted() {
    let mut e = engine(0);
    let f = Finalize { height: 1, voter: 3, signature: vec![1, 2] };
    assert!(e.on_message(3, Message::Finalize(f), &[]).is_ok());
    assert!(e.handle_finalize(3, Finalize { height: 2, voter: 1, signature: vec![] }).is_ok());
}

#[test]
fn timeouts_are_checked_before_buffering() {
    let mut e = engine(0);
    let mut t = Timeout { sender: 3, current_view: 4, next_view: 5, high_vote: Some((2, 1)), signature: vec![] };
    let signed = e.timeout_digest_bytes(&t);
    t.signature = expected_signature(3, &signed);
    assert!(e.handle_timeout(3, t.clone()).is_ok());
    assert!(e.handle_timeout(3, t.clone()).is_ok());
    let mut bad = t.clone();
    bad.next_view = 6;
    assert!(matches!(e.handle_timeout(3, bad), Err(ConsensusError::VerificationFailed(_))));
}

#[test]
fn justification_is_genesis_and_accepted() {
    let e = engine(0);
    let j = e.build_justification(3);
    assert!(matches!(j, Justification::Genesis));
    assert!(e.verify_justification(&j, 3).is_ok());
}

#[test]
fn hash_pair_hashes_the_concatenation() {
    let a = [1u8; 32];
    let b = [2u8; 32];
    let d = TestCrypto.hash_pair(&a, &b);
    let mut both = a.to_vec();
    both.extend_from_slice(&b);
    assert_eq!(d, TestCrypto.hash(&both));
    assert_eq!(d[0], 64);
    assert_eq!(d[1], (32u32 * 1 + 32 * 2) as u8);
}

#[test]
fn assemble_vote_keeps_signature_or_error() {
    let v = assemble_vote(3, [1u8; 32], 7, Ok(vec![5])).unwrap();
    assert_eq!(v.height, 3);
    assert_eq!(v.digest, [1u8; 32]);
    assert_eq!(v.voter, 7);
    assert_eq!(v.signature, vec![5]);
    let e = assemble_vote(3, [1u8; 32], 7, Err(ConsensusError::UnknownMessageType));
    assert!(matches!(e, Err(ConsensusError::UnknownMessageType)));
}

#[test]
fn timeout_digest_bytes_tell_timeouts_apart() {
    let e = engine(1);
    let base = Timeout { sender: 0, current_view: 1, next_view: 2, high_vote: None, signature: vec![] };
    let later = Timeout { next_view: 3, ..base.clone() };
    let voted = Timeout { high_vote: Some((0, 0)), ..base.clone() };
    let other_sender = Timeout { sender: 3, signature: vec![9], ..base.clone() };
    assert_ne!(e.timeout_digest_bytes(&base), e.timeout_digest_bytes(&later));
    assert_ne!(e.timeout_digest_bytes(&base), e.timeout_digest_bytes(&voted));
    // The signed bytes cover the views and the highest vote only.
    assert_eq!(e.timeout_digest_bytes(&base), e.timeout_digest_bytes(&other_sender));
}

#[test]
fn start_view_proposes_in_every_view_led() {
    // Node 2 leads views 2, 6, 10, ...
    let (mut e, outbox) = engine_with(2, false, false);
    for v in 0..12u64 {
        assert!(e.start_view(v).is_ok());
    }
    let heights: Vec<u64> = sent(&outbox)
        .iter()
        .map(|m| match m {
            Message::Proposal(p) => p.height,
            _ => panic!("expected proposals only"),
        })
        .collect();
    assert_eq!(heights, vec![2, 6, 10]);
}

#[test]
fn start_view_keeps_committed_sequence() {
    let mut e = engine(0);
    assert!(e.start_view(8).is_ok());
    assert_eq!(e.committed_sequence(), 0);
}

#[test]
fn broadcast_vote_sends_a_signed_vote_or_reports_the_refusal() {
    let (mut e, outbox) = engine_with(1, false, false);
    let refused = e.broadcast_vote(Err(ConsensusError::Crypto("no key".to_string())));
    assert!(matches!(refused, Err(ConsensusError::Crypto(ref m)) if m == "no key"));
    assert!(sent(&outbox).is_empty());
    let v = Vote { height: 2, digest: [4u8; 32], voter: 1, signature: vec![8] };
    assert!(e.broadcast_vote(Ok(v)).is_ok());
    let out = sent(&outbox);
    assert_eq!(out.len(), 1);
    assert!(matches!(&out[0], Message::Vote(w) if w.height == 2 && w.signature == vec![8]));
}

#[test]
fn first_rejected_command_is_the_outcome() {
    let mut e = engine(3);
    let r = e.handle_proposal(0, proposal(4, vec![2, 5, 7]), &[1]);
    assert!(matches!(r, Err(ConsensusError::StateMachine(ref m)) if m == "odd command 5"));
}

#[test]
fn signer_refusal_is_the_outcome() {
    let (mut e, outbox) = engine_with(3, true, false);
    let r = e.handle_proposal(0, proposal(4, vec![2]), &[1]);
    assert!(matches!(r, Err(ConsensusError::Crypto(ref m)) if m == "no key"));
    assert!(sent(&outbox).is_empty());
}

#[test]
fn verifier_error_is_the_outcome() {
    let mut e = engine(0);
    let forged = Vote { height: 1, digest: [0u8; 32], voter: 2, signature: vec![] };
    let r = e.handle_vote(2, forged);
    assert!(matches!(r, Err(ConsensusError::VerificationFailed(ref m)) if m == "bad signature from 2"));
    let t = Timeout { sender: 3, current_view: 0, next_view: 1, high_vote: None, signature: vec![] };
    let r = e.handle_timeout(3, t);
    assert!(matches!(r, Err(ConsensusError::VerificationFailed(ref m)) if m == "bad signature from 3"));
}

#[test]
fn view_is_the_highest_view_started() {
    let (mut e, _) = engine_with(0, false, false);
    let digest = [3u8; 32];
    let signed = e.vote_digest_bytes(&9, &digest);
    let vote = Vote { height: 9, digest, voter: 2, signature: expected_signature(2, &signed) };
    let _ = e.start_view(3);
    let _ = e.on_message(2, Message::Vote(vote), &[]);
    let _ = e.start_view(1);
    let _ = e.on_message(1, Message::Proposal(proposal(3, vec![2])), &[5]);
    assert_eq!(e.view(), 3);
    let _ = e.start_view(8);
    let _ = e.start_view(8);
    assert_eq!(e.view(), 8);
}
