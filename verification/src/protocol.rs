use vstd::prelude::*;
use vstd::bytes::{spec_u64_to_le_bytes, u64_to_le_bytes};

use std::collections::HashMap;
use std::marker::PhantomData;

use crate::config::Config;
use crate::crypto::{CryptoProvider, Signer};
use crate::error::ConsensusError;
use crate::message::{Finalize, Justification, Message, Proposal, Timeout, Vote};
use crate::network::Network;
use crate::state::StateMachine;
use crate::types::{Digest, Height, NodeId};

verus! {

broadcast use vstd::std_specs::hash::group_hash_axioms;

/// The bytes a vote signature covers: the height in little-endian order, then the digest.
pub open spec fn vote_bytes(view: Height, digest: Digest) -> Seq<u8> {
    spec_u64_to_le_bytes(view) + digest@
}

/// The bytes a timeout signature covers: the current view and the next view in little-endian
/// order, then the highest vote's view and sequence when there is one.
pub open spec fn timeout_bytes(t: Timeout) -> Seq<u8> {
    spec_u64_to_le_bytes(t.current_view) + spec_u64_to_le_bytes(t.next_view) + match t.high_vote {
        Some(hv) => spec_u64_to_le_bytes(hv.0) + spec_u64_to_le_bytes(hv.1),
        None => Seq::<u8>::empty(),
    }
}

/// `post` is the transport `pre` after one call of `broadcast(msg)` that returned `r`: the
/// message was handed over once, nothing was sent point-to-point, and it was delivered exactly
/// when `r` is `Ok`.
pub open spec fn broadcast_once<P: Send + Sync, N: Network<P>>(
    pre: N,
    post: N,
    msg: Message<P>,
    r: Result<(), ConsensusError>,
) -> bool {
    &&& post.handed() == pre.handed().push(msg)
    &&& post.sends() == pre.sends()
    &&& r is Ok ==> post.broadcasts() == pre.broadcasts().push(msg)
    &&& r is Err ==> post.broadcasts() == pre.broadcasts()
}

/// The highest of `start` and of every view in `started` (where `None` starts none).
pub open spec fn highest_view(start: Height, started: Seq<Option<Height>>) -> Height
    decreases started.len(),
{
    if started.len() == 0 {
        start
    } else {
        let prev = highest_view(start, started.drop_last());
        match started.last() {
            Some(v) => if v > prev {
                v
            } else {
                prev
            },
            None => prev,
        }
    }
}

/// A leader's proposal for `view` on top of `parent`: no payload, genesis justification.
pub open spec fn is_fresh_proposal<P>(p: Proposal<P>, view: Height, parent: Digest) -> bool {
    &&& p.height == view
    &&& p.parent == parent
    &&& p.payload@ == Seq::<P>::empty()
    &&& p.justification is Genesis
}

/// Entry-point for a Simplex consensus replica.
///
/// # Type parameters
///
/// * `P`: the opaque payload / command type.
/// * `N`: the network transport (see `Network`).
/// * `S`: the application state-machine (see `StateMachine`).
/// * `C`: cryptographic primitives (see `CryptoProvider`).
/// * `K`: the signing key for this replica (see `Signer`).
pub struct Simplex<P, N, S, C, K> {
    config: Config,
    network: N,
    state_machine: S,
    crypto: C,
    signer: K,
    /// The current view.
    view: Height,
    /// The highest sequence that has been committed.
    committed_seq: Height,
    /// The digest of the last committed state.
    locked_digest: Digest,
    /// The highest `(view, seq)` this replica has voted for.
    highest_vote: Option<(Height, Height)>,
    /// Received timeout messages per next view, used to build a `TimeoutCert`.
    timeout_buffer: HashMap<Height, Vec<Timeout>>,
    /// The engine does not store payloads directly, but the type flows through all message
    /// handlers.
    _phantom: PhantomData<P>,
}

impl<P, N, S, C, K> Simplex<P, N, S, C, K> where
    P: Clone + Send + Sync + 'static,
    N: Network<P>,
    S: StateMachine<P>,
    C: CryptoProvider,
    K: Signer,
 {
    // ------------------------------------------------------------------
    //  The replica's state, as contracts see it
    // ------------------------------------------------------------------

    pub closed spec fn spec_config(&self) -> Config {
        self.config
    }

    pub closed spec fn spec_network(&self) -> N {
        self.network
    }

    pub closed spec fn spec_state_machine(&self) -> S {
        self.state_machine
    }

    pub closed spec fn spec_crypto(&self) -> C {
        self.crypto
    }

    pub closed spec fn spec_signer(&self) -> K {
        self.signer
    }

    pub closed spec fn current_view(&self) -> Height {
        self.view
    }

    pub closed spec fn committed(&self) -> Height {
        self.committed_seq
    }

    pub closed spec fn locked(&self) -> Digest {
        self.locked_digest
    }

    pub closed spec fn spec_highest_vote(&self) -> Option<(Height, Height)> {
        self.highest_vote
    }

    /// The buffered timeouts, per next view, in order of arrival.
    pub closed spec fn timeout_log(&self) -> Map<Height, Seq<Timeout>> {
        self.timeout_buffer@.map_values(|v: Vec<Timeout>| v@)
    }

    /// The timeouts buffered for `next_view` (none when the view has no entry).
    pub open spec fn pending_timeouts(&self, next_view: Height) -> Seq<Timeout> {
        if self.timeout_log().contains_key(next_view) {
            self.timeout_log()[next_view]
        } else {
            Seq::empty()
        }
    }

    /// Every buffered timeout sits under its own next view.
    pub open spec fn timeouts_keyed(&self) -> bool {
        forall|k: Height, i: int|
            #![trigger self.timeout_log()[k][i]]
            self.timeout_log().contains_key(k) && 0 <= i < self.timeout_log()[k].len()
                ==> self.timeout_log()[k][i].next_view == k
    }

    /// Every buffered timeout carries a signature that verifies.
    pub open spec fn timeouts_authenticated(&self) -> bool {
        forall|k: Height, i: int|
            #![trigger self.timeout_log()[k][i]]
            self.timeout_log().contains_key(k) && 0 <= i < self.timeout_log()[k].len() ==> {
                let t = self.timeout_log()[k][i];
                self.spec_crypto().verification(t.sender, timeout_bytes(t), t.signature@) is Ok
            }
    }

    /// Whether this replica leads `view`.
    pub open spec fn leads(&self, view: Height) -> bool {
        self.spec_config().replica_set.leader(view) == self.spec_signer().signer_id()
    }

    /// `v` is this replica's signed vote for `digest` at `height`.
    pub open spec fn is_own_vote(&self, v: Vote, height: Height, digest: Digest) -> bool {
        &&& v.height == height
        &&& v.digest == digest
        &&& v.voter == self.spec_signer().signer_id()
        &&& self.spec_signer().signs(vote_bytes(height, digest), v.signature@)
    }

    /// `post` has the same components (configuration, state machine, crypto, signer) as `self`.
    pub open spec fn same_components(&self, post: Self) -> bool {
        &&& post.spec_config() == self.spec_config()
        &&& post.spec_state_machine() == self.spec_state_machine()
        &&& post.spec_crypto() == self.spec_crypto()
        &&& post.spec_signer() == self.spec_signer()
    }

    /// `post` has the same committed sequence, lock and highest vote as `self`.
    pub open spec fn same_progress(&self, post: Self) -> bool {
        &&& post.committed() == self.committed()
        &&& post.locked() == self.locked()
        &&& post.spec_highest_vote() == self.spec_highest_vote()
    }

    /// What validating the commands of `cmds` from position `i` on, in order, answers: the
    /// first rejection, or `Ok` when every one of them is accepted.
    pub open spec fn payload_verdict(&self, cmds: Seq<P>, i: nat) -> Result<(), ConsensusError>
        decreases cmds.len() - i,
    {
        if i < cmds.len() {
            match self.spec_state_machine().validation(cmds[i as int]) {
                Ok(_) => self.payload_verdict(cmds, i + 1),
                Err(e) => Err(e),
            }
        } else {
            Ok(())
        }
    }

    /// What handling `proposal` (serialized as `bytes`) from state `self` to `post` with
    /// outcome `r` means. The replica's own state does not change. The first command of the
    /// payload that the state machine rejects makes the outcome that rejection, with nothing
    /// sent. With every command accepted, the signer's refusal to sign the vote is the
    /// outcome, with nothing sent; and where it signs, the replica's own vote for the digest of
    /// `bytes` is broadcast once, and the outcome is that broadcast's.
    pub open spec fn proposal_handled(
        &self,
        post: Self,
        proposal: Proposal<P>,
        bytes: Seq<u8>,
        r: Result<(), ConsensusError>,
    ) -> bool {
        &&& self.same_components(post)
        &&& self.same_progress(post)
        &&& post.current_view() == self.current_view()
        &&& post.timeout_log() == self.timeout_log()
        &&& S::obeys_state_machine_spec() ==> match self.payload_verdict(proposal.payload@, 0) {
            Err(e) => r == Err::<(), ConsensusError>(e) && post.spec_network()
                == self.spec_network(),
            Ok(_) => true,
        }
        &&& N::obeys_network_spec() ==> {
            ||| r is Err && post.spec_network() == self.spec_network()
            ||| exists|v: Vote|
                v.height == proposal.height && broadcast_once(
                    self.spec_network(),
                    post.spec_network(),
                    Message::Vote(v),
                    r,
                )
        }
        &&& S::obeys_state_machine_spec() && C::obeys_crypto_spec() && K::obeys_signer_spec()
            && N::obeys_network_spec() && self.payload_verdict(proposal.payload@, 0) is Ok
            ==> match self.spec_signer().refusal(
            vote_bytes(proposal.height, self.spec_crypto().digest_of(bytes)),
        ) {
            Some(e) => r == Err::<(), ConsensusError>(e) && post.spec_network()
                == self.spec_network(),
            None => exists|v: Vote|
                self.is_own_vote(v, proposal.height, self.spec_crypto().digest_of(bytes))
                    && broadcast_once(self.spec_network(), post.spec_network(), Message::Vote(v), r),
        }
    }

    /// What handling `vote` from state `self` to `post` with outcome `r` means: nothing
    /// changes, and the outcome is what checking its signature over its height and digest
    /// answers.
    pub open spec fn vote_handled(&self, post: Self, vote: Vote, r: Result<(), ConsensusError>) -> bool {
        &&& post == *self
        &&& C::obeys_crypto_spec() ==> r == self.spec_crypto().verification(
            vote.voter,
            vote_bytes(vote.height, vote.digest),
            vote.signature@,
        )
    }

    /// What handling `timeout` from state `self` to `post` with outcome `r` means: the outcome
    /// is what checking its signature answers; an accepted timeout is appended to the timeouts
    /// of its next view, and a refused one leaves everything as it was.
    pub open spec fn timeout_handled(&self, post: Self, timeout: Timeout, r: Result<(), ConsensusError>) -> bool {
        &&& self.same_components(post)
        &&& self.same_progress(post)
        &&& post.current_view() == self.current_view()
        &&& post.spec_network() == self.spec_network()
        &&& C::obeys_crypto_spec() ==> r == self.spec_crypto().verification(
            timeout.sender,
            timeout_bytes(timeout),
            timeout.signature@,
        )
        &&& r is Ok ==> post.timeout_log() == self.timeout_log().insert(
            timeout.next_view,
            self.pending_timeouts(timeout.next_view).push(timeout),
        )
        &&& r is Err ==> post.timeout_log() == self.timeout_log()
    }

    /// What starting `view` from state `self` to `post` with outcome `r` means. A view below
    /// the current one is refused as stale and changes nothing. Otherwise the replica moves to
    /// `view`; if it leads `view` it broadcasts once a fresh proposal on top of its lock, and
    /// the outcome is that broadcast's; if not, it sends nothing and succeeds.
    pub open spec fn view_started(&self, post: Self, view: Height, r: Result<(), ConsensusError>) -> bool {
        &&& view < self.current_view() ==> {
            &&& r == Err::<(), ConsensusError>(
                ConsensusError::StaleView { msg_view: view, current_view: self.current_view() },
            )
            &&& post == *self
        }
        &&& view >= self.current_view() ==> {
            &&& self.same_components(post)
            &&& self.same_progress(post)
            &&& post.current_view() == view
            &&& post.timeout_log() == self.timeout_log()
            &&& K::obeys_signer_spec() && N::obeys_network_spec() ==> (self.leads(view)
                ==> exists|p: Proposal<P>|
                is_fresh_proposal(p, view, self.locked()) && broadcast_once(
                    self.spec_network(),
                    post.spec_network(),
                    Message::Proposal(p),
                    r,
                ))
            &&& K::obeys_signer_spec() ==> (!self.leads(view) ==> r is Ok && post.spec_network()
                == self.spec_network())
        }
        &&& N::obeys_network_spec() ==> {
            ||| post.spec_network() == self.spec_network()
            ||| exists|p: Proposal<P>|
                is_fresh_proposal(p, view, self.locked()) && broadcast_once(
                    self.spec_network(),
                    post.spec_network(),
                    Message::Proposal(p),
                    r,
                )
        }
    }

    /// `post` follows from `self` by handling one message or timeout, of any kind and with any
    /// outcome.
    pub open spec fn message_step(&self, post: Self) -> bool {
        ||| exists|p: Proposal<P>, b: Seq<u8>, r: Result<(), ConsensusError>|
            #[trigger] self.proposal_handled(post, p, b, r)
        ||| exists|v: Vote, r: Result<(), ConsensusError>| #[trigger] self.vote_handled(post, v, r)
        ||| exists|t: Timeout, r: Result<(), ConsensusError>|
            #[trigger] self.timeout_handled(post, t, r)
        ||| post == *self
    }

    /// Views move only through `start_view`, and only forward: after any run of steps, where a
    /// label `Some(v)` is a call of `start_view(v)` and `None` the handling of a message or a
    /// timeout, the replica's view is the highest of its first view and every view started.
    pub proof fn lemma_view_after_run(states: Seq<Self>, labels: Seq<Option<Height>>)
        requires
            states.len() == labels.len() + 1,
            forall|i: int|
                #![trigger labels[i]]
                0 <= i < labels.len() ==> match labels[i] {
                    Some(v) => exists|r: Result<(), ConsensusError>|
                        #[trigger] states[i].view_started(states[i + 1], v, r),
                    None => states[i].message_step(states[i + 1]),
                },
        ensures
            states.last().current_view() == highest_view(states[0].current_view(), labels),
        decreases labels.len(),
    {
        if labels.len() > 0 {
            let n = labels.len() - 1;
            let pre_states = states.drop_last();
            let pre_labels = labels.drop_last();
            assert forall|i: int|
                #![trigger pre_labels[i]]
                0 <= i < pre_labels.len() implies match pre_labels[i] {
                    Some(v) => exists|r: Result<(), ConsensusError>|
                        #[trigger] pre_states[i].view_started(pre_states[i + 1], v, r),
                    None => pre_states[i].message_step(pre_states[i + 1]),
                } by {
                assert(labels[i] == pre_labels[i]);
                assert(pre_states[i] == states[i]);
                assert(pre_states[i + 1] == states[i + 1]);
            }
            Self::lemma_view_after_run(pre_states, pre_labels);
            assert(pre_states.last() == states[n]);
            assert(labels[n] == labels.last());
        }
    }

    /// The verdict on the commands of `cmds` from position `i` on is `Ok` exactly when the
    /// state machine accepts each of them, and otherwise it is the rejection of the first of
    /// them that the state machine rejects.
    proof fn lemma_payload_verdict(&self, cmds: Seq<P>, i: nat)
        requires
            i <= cmds.len(),
        ensures
            self.payload_verdict(cmds, i) is Ok <==> forall|j: int|
                i <= j < cmds.len() ==> (#[trigger] self.spec_state_machine().validation(cmds[j])) is Ok,
            forall|k: int|
                i <= k < cmds.len() && (#[trigger] self.spec_state_machine().validation(cmds[k])) is Err
                    && (forall|j: int|
                    i <= j < k ==> (#[trigger] self.spec_state_machine().validation(cmds[j])) is Ok)
                    ==> self.payload_verdict(cmds, i) == self.spec_state_machine().validation(cmds[k]),
        decreases cmds.len() - i,
    {
        if i < cmds.len() {
            self.lemma_payload_verdict(cmds, i + 1);
            let first = self.spec_state_machine().validation(cmds[i as int]);
            if first is Ok {
                assert forall|k: int|
                    i <= k < cmds.len() && (#[trigger] self.spec_state_machine().validation(cmds[k])) is Err
                        && (forall|j: int|
                        i <= j < k ==> (#[trigger] self.spec_state_machine().validation(cmds[j])) is Ok)
                        implies self.payload_verdict(cmds, i) == self.spec_state_machine().validation(
                    cmds[k],
                ) by {
                    assert(k != i);
                    assert forall|j: int| i + 1 <= j < k implies (
                    #[trigger] self.spec_state_machine().validation(cmds[j])) is Ok by {}
                }
            } else {
                assert forall|k: int|
                    i <= k < cmds.len() && (#[trigger] self.spec_state_machine().validation(cmds[k])) is Err
                        && (forall|j: int|
                        i <= j < k ==> (#[trigger] self.spec_state_machine().validation(cmds[j])) is Ok)
                        implies self.payload_verdict(cmds, i) == self.spec_state_machine().validation(
                    cmds[k],
                ) by {
                    if k > i {
                        assert(self.spec_state_machine().validation(cmds[i as int]) is Ok);
                    }
                }
            }
        }
    }

    /// A proposal is voted for only when the state machine accepts every command of its
    /// payload: the first command it rejects makes the outcome that rejection, with nothing
    /// sent, and success or any sending means that every command was accepted.
    pub proof fn lemma_proposal_validates_every_command(
        &self,
        post: Self,
        proposal: Proposal<P>,
        bytes: Seq<u8>,
        r: Result<(), ConsensusError>,
    )
        requires
            S::obeys_state_machine_spec(),
            self.proposal_handled(post, proposal, bytes, r),
        ensures
            forall|k: int|
                0 <= k < proposal.payload@.len() && (#[trigger] self.spec_state_machine().validation(
                    proposal.payload@[k],
                )) is Err && (forall|j: int|
                    0 <= j < k ==> (#[trigger] self.spec_state_machine().validation(
                        proposal.payload@[j],
                    )) is Ok) ==> r == self.spec_state_machine().validation(proposal.payload@[k])
                    && post.spec_network() == self.spec_network(),
            r is Ok || post.spec_network() != self.spec_network() ==> forall|j: int|
                0 <= j < proposal.payload@.len() ==> (#[trigger] self.spec_state_machine().validation(
                    proposal.payload@[j],
                )) is Ok,
    {
        self.lemma_payload_verdict(proposal.payload@, 0);
    }

    /// The leader of a view proposes whenever it starts that view, whether it comes from a
    /// lower view or is already in it (the bootstrap view 0 included): exactly one proposal for
    /// the view, on top of the lock, with no payload and a genesis justification, is handed to
    /// the network, and the outcome is whether it was delivered.
    pub proof fn lemma_leader_proposes(&self, post: Self, view: Height, r: Result<(), ConsensusError>)
        requires
            K::obeys_signer_spec(),
            N::obeys_network_spec(),
            self.view_started(post, view, r),
            view >= self.current_view(),
            self.spec_config().replica_set.nodes@.len() > 0,
            self.spec_config().replica_set.nodes@[((view as usize) as int)
                % (self.spec_config().replica_set.nodes@.len() as int)]
                == self.spec_signer().signer_id(),
        ensures
            post.current_view() == view,
            exists|p: Proposal<P>|
                {
                    &&& p.height == view
                    &&& p.parent == self.locked()
                    &&& p.payload@.len() == 0
                    &&& p.justification is Genesis
                    &&& post.spec_network().handed() == self.spec_network().handed().push(
                        Message::Proposal(p),
                    )
                    &&& post.spec_network().sends() == self.spec_network().sends()
                    &&& (r is Ok <==> post.spec_network().broadcasts()
                        == self.spec_network().broadcasts().push(Message::Proposal(p)))
                },
    {
        let p = choose|p: Proposal<P>|
            is_fresh_proposal(p, view, self.locked()) && broadcast_once(
                self.spec_network(),
                post.spec_network(),
                Message::Proposal(p),
                r,
            );
        if r is Err {
            assert(self.spec_network().broadcasts().len() != self.spec_network().broadcasts().push(
                Message::Proposal(p),
            ).len());
        }
    }

    /// A replica that does not lead a view sends nothing when it starts that view, and
    /// succeeds.
    pub proof fn lemma_non_leader_sends_nothing(&self, post: Self, view: Height, r: Result<(), ConsensusError>)
        requires
            K::obeys_signer_spec(),
            self.view_started(post, view, r),
            view >= self.current_view(),
            self.spec_config().replica_set.nodes@.len() > 0,
            self.spec_config().replica_set.nodes@[((view as usize) as int)
                % (self.spec_config().replica_set.nodes@.len() as int)]
                != self.spec_signer().signer_id(),
        ensures
            r is Ok,
            post.current_view() == view,
            post.spec_network() == self.spec_network(),
    {
    }

    /// Whoever the voter, handling a vote changes nothing and answers exactly what the crypto
    /// provider says of the vote's signature under the voter's key over the 8 little-endian
    /// bytes of its height followed by its digest.
    pub proof fn lemma_vote_checked_by_voter_key(&self, post: Self, vote: Vote, r: Result<(), ConsensusError>)
        requires
            C::obeys_crypto_spec(),
            self.vote_handled(post, vote, r),
        ensures
            post == *self,
            r == self.spec_crypto().verification(
                vote.voter,
                spec_u64_to_le_bytes(vote.height) + vote.digest@,
                vote.signature@,
            ),
    {
    }

    /// Accepting a timeout keeps every timeout already buffered for its next view, in order,
    /// and puts it after them; the timeouts of every other view stay as they were.
    pub proof fn lemma_timeout_appended(&self, post: Self, t: Timeout, r: Result<(), ConsensusError>)
        requires
            self.timeout_handled(post, t, r),
            r is Ok,
        ensures
            post.timeout_log().contains_key(t.next_view),
            post.timeout_log()[t.next_view].len() == (if self.timeout_log().contains_key(
                t.next_view,
            ) {
                self.timeout_log()[t.next_view].len()
            } else {
                0
            }) + 1,
            self.timeout_log().contains_key(t.next_view) ==> forall|i: int|
                0 <= i < self.timeout_log()[t.next_view].len() ==> #[trigger] post.timeout_log()[t.next_view][i]
                    == self.timeout_log()[t.next_view][i],
            post.timeout_log()[t.next_view].last() == t,
            forall|k: Height|
                k != t.next_view ==> (#[trigger] post.timeout_log().contains_key(k)
                    == self.timeout_log().contains_key(k)) && (self.timeout_log().contains_key(k)
                    ==> post.timeout_log()[k] == self.timeout_log()[k]),
    {
    }

    /// Timeouts accumulate: after a run of accepted timeouts that all move to view `k`, the
    /// number buffered for `k` has grown by the length of the run.
    pub proof fn lemma_timeouts_accumulate(states: Seq<Self>, timeouts: Seq<Timeout>, k: Height)
        requires
            states.len() == timeouts.len() + 1,
            forall|i: int|
                #![trigger timeouts[i]]
                0 <= i < timeouts.len() ==> timeouts[i].next_view == k && states[i].timeout_handled(
                    states[i + 1],
                    timeouts[i],
                    Ok(()),
                ),
        ensures
            (if states.last().timeout_log().contains_key(k) {
                states.last().timeout_log()[k].len()
            } else {
                0
            }) == (if states[0].timeout_log().contains_key(k) {
                states[0].timeout_log()[k].len()
            } else {
                0
            }) + timeouts.len(),
        decreases timeouts.len(),
    {
        if timeouts.len() > 0 {
            let n = timeouts.len() - 1;
            let pre_states = states.drop_last();
            let pre_timeouts = timeouts.drop_last();
            assert forall|i: int|
                #![trigger pre_timeouts[i]]
                0 <= i < pre_timeouts.len() implies pre_timeouts[i].next_view == k
                    && pre_states[i].timeout_handled(pre_states[i + 1], pre_timeouts[i], Ok(())) by {
                assert(timeouts[i] == pre_timeouts[i]);
                assert(pre_states[i] == states[i]);
                assert(pre_states[i + 1] == states[i + 1]);
            }
            Self::lemma_timeouts_accumulate(pre_states, pre_timeouts, k);
            assert(timeouts[n].next_view == k);
            states[n].lemma_timeout_appended(states[n + 1], timeouts[n], Ok(()));
            assert(pre_states.last() == states[n]);
        }
    }

    /// A vote this replica built is checked by any other replica against exactly the bytes
    /// this replica signed: a receiver whose crypto accepts this signer's signatures accepts
    /// the vote.
    pub proof fn lemma_own_vote_accepted(
        &self,
        receiver: Self,
        post: Self,
        v: Vote,
        height: Height,
        digest: Digest,
        r: Result<(), ConsensusError>,
    )
        requires
            C::obeys_crypto_spec(),
            self.is_own_vote(v, height, digest),
            forall|m: Seq<u8>, sig: Seq<u8>|
                #[trigger] self.spec_signer().signs(m, sig) ==> receiver.spec_crypto().verification(
                    self.spec_signer().signer_id(),
                    m,
                    sig,
                ) is Ok,
            receiver.vote_handled(post, v, r),
        ensures
            r is Ok,
    {
    }

    /// Create a fresh simplex instance.
    pub fn new(config: Config, network: N, state_machine: S, crypto: C, signer: K) -> (s: Self)
        ensures
            s.spec_config() == config,
            s.spec_network() == network,
            s.spec_state_machine() == state_machine,
            s.spec_crypto() == crypto,
            s.spec_signer() == signer,
            s.current_view() == 0,
            s.committed() == 0,
            S::obeys_state_machine_spec() ==> s.locked() == state_machine.state_digest(),
            s.spec_highest_vote() is None,
            s.timeout_log() == Map::<Height, Seq<Timeout>>::empty(),
            s.timeouts_keyed(),
            s.timeouts_authenticated(),
    {
        let locked_digest = state_machine.digest();
        let s = Simplex {
            config,
            network,
            state_machine,
            crypto,
            signer,
            view: 0,
            committed_seq: 0,
            locked_digest,
            highest_vote: None,
            timeout_buffer: HashMap::new(),
            _phantom: PhantomData,
        };
        assert(s.timeout_log() =~= Map::<Height, Seq<Timeout>>::empty());
        s
    }

    // ------------------------------------------------------------------
    //  Public entry-points
    // ------------------------------------------------------------------

    /// Called when a protocol message is received from the network.
    ///
    /// `proposal_bytes` is the serialized proposal when `msg` is a proposal (its digest is
    /// what this replica votes for); it is not read for other messages.
    pub fn on_message(&mut self, from: NodeId, msg: Message<P>, proposal_bytes: &[u8]) -> (r: Result<(), ConsensusError>)
        ensures
            match msg {
                Message::Proposal(p) => old(self).proposal_handled(*final(self), p, proposal_bytes@, r),
                Message::Vote(v) => old(self).vote_handled(*final(self), v, r),
                Message::Finalize(_) => r is Ok && *final(self) == *old(self),
            },
            old(self).timeouts_keyed() ==> final(self).timeouts_keyed(),
            old(self).timeouts_authenticated() ==> final(self).timeouts_authenticated(),
    {
        match msg {
            Message::Proposal(p) => self.handle_proposal(from, p, proposal_bytes),
            Message::Vote(v) => self.handle_vote(from, v),
            Message::Finalize(f) => self.handle_finalize(from, f),
        }
    }

    /// Start a new view, typically after a timeout or on bootstrap. Views never go back: a view
    /// below the current one is refused as stale.
    ///
    /// If `self` is the leader of the new view it constructs and broadcasts a proposal.
    pub fn start_view(&mut self, view: Height) -> (r: Result<(), ConsensusError>)
        requires
            old(self).spec_config().replica_set.nodes@.len() > 0,
        ensures
            old(self).view_started(*final(self), view, r),
            old(self).timeouts_keyed() ==> final(self).timeouts_keyed(),
            old(self).timeouts_authenticated() ==> final(self).timeouts_authenticated(),
    {
        if view < self.view {
            return Err(ConsensusError::StaleView { msg_view: view, current_view: self.view });
        }
        self.view = view;
        if self.config.replica_set.is_leader_of(self.signer.node_id(), view) {
            return self.propose(view);
        }
        Ok(())
    }

    /// Current view of this replica.
    pub fn view(&self) -> (v: Height)
        ensures
            v == self.current_view(),
    {
        self.view
    }

    /// The last committed sequence number.
    pub fn committed_sequence(&self) -> (s: Height)
        ensures
            s == self.committed(),
    {
        self.committed_seq
    }

    // ------------------------------------------------------------------
    //  Handlers
    // ------------------------------------------------------------------

    /// Handle a proposal: verify its justification, validate its payload against the state
    /// machine, then vote for it and broadcast the vote.
    pub fn handle_proposal(&mut self, _from: NodeId, proposal: Proposal<P>, proposal_bytes: &[u8]) -> (r: Result<(), ConsensusError>)
        ensures
            old(self).proposal_handled(*final(self), proposal, proposal_bytes@, r),
    {
        // 1. Verify the justification.
        self.verify_justification(&proposal.justification, proposal.height)?;

        // 2. Validate payload against the state machine.
        let mut i: usize = 0;
        while i < proposal.payload.len()
            invariant
                *self == *old(self),
                i <= proposal.payload@.len(),
                S::obeys_state_machine_spec() ==> self.payload_verdict(proposal.payload@, 0)
                    == self.payload_verdict(proposal.payload@, i as nat),
            decreases proposal.payload@.len() - i,
        {
            match self.state_machine.validate(&proposal.payload[i]) {
                Ok(()) => {},
                Err(e) => {
                    return Err(e);
                },
            }
            i = i + 1;
        }

        // 3. Vote for the proposal.
        let vote = self.build_vote(&proposal, proposal_bytes);
        self.broadcast_vote(vote)
    }

    /// Broadcast a signed vote; where signing was refused, report that refusal and send
    /// nothing.
    pub fn broadcast_vote(&mut self, vote: Result<Vote, ConsensusError>) -> (r: Result<(), ConsensusError>)
        ensures
            final(self).same_components(*old(self)),
            final(self).same_progress(*old(self)),
            final(self).current_view() == old(self).current_view(),
            final(self).timeout_log() == old(self).timeout_log(),
            match vote {
                Ok(v) => N::obeys_network_spec() ==> broadcast_once(
                    old(self).spec_network(),
                    final(self).spec_network(),
                    Message::Vote(v),
                    r,
                ),
                Err(e) => r == Err::<(), ConsensusError>(e) && *final(self) == *old(self),
            },
    {
        match vote {
            Ok(v) => self.network.broadcast(Message::Vote(v)),
            Err(e) => Err(e),
        }
    }

    /// Handle a finalize vote.
    pub fn handle_finalize(&mut self, _from: NodeId, _finalize: Finalize) -> (r: Result<(), ConsensusError>)
        ensures
            r is Ok,
            *final(self) == *old(self),
    {
        Ok(())
    }

    /// Handle a vote: accept it when its signature verifies.
    pub fn handle_vote(&mut self, _from: NodeId, vote: Vote) -> (r: Result<(), ConsensusError>)
        ensures
            old(self).vote_handled(*final(self), vote, r),
    {
        // 1. Verify the vote signature.
        let bytes = self.vote_digest_bytes(&vote.height, &vote.digest);
        self.crypto.verify(vote.voter, bytes.as_slice(), vote.signature.as_slice())
    }

    /// Handle a timeout: when its signature verifies, buffer it under its next view, where
    /// `2f + 1` of them make a timeout certificate.
    pub fn handle_timeout(&mut self, _from: NodeId, timeout: Timeout) -> (r: Result<(), ConsensusError>)
        ensures
            old(self).timeout_handled(*final(self), timeout, r),
            old(self).timeouts_keyed() ==> final(self).timeouts_keyed(),
            C::obeys_crypto_spec() && old(self).timeouts_authenticated()
                ==> final(self).timeouts_authenticated(),
    {
        // 1. Verify the timeout signature.
        let bytes = self.timeout_digest_bytes(&timeout);
        let checked = self.crypto.verify(timeout.sender, bytes.as_slice(), timeout.signature.as_slice());
        if checked.is_err() {
            return checked;
        }

        // 2. Accumulate timeouts.
        let key = timeout.next_view;
        let ghost t = timeout;
        let mut list = match self.timeout_buffer.remove(&key) {
            Some(l) => l,
            None => Vec::new(),
        };
        assert(list@ == old(self).pending_timeouts(key));
        list.push(timeout);
        self.timeout_buffer.insert(key, list);
        assert(self.timeout_log() =~= old(self).timeout_log().insert(key, old(self).pending_timeouts(key).push(t)));
        checked
    }

    // ------------------------------------------------------------------
    //  Helpers
    // ------------------------------------------------------------------

    /// The leader constructs and broadcasts a new proposal for the given view.
    fn propose(&mut self, view: Height) -> (r: Result<(), ConsensusError>)
        ensures
            final(self).same_components(*old(self)),
            final(self).same_progress(*old(self)),
            final(self).current_view() == old(self).current_view(),
            final(self).timeout_log() == old(self).timeout_log(),
            N::obeys_network_spec() ==> exists|p: Proposal<P>|
                is_fresh_proposal(p, view, old(self).locked()) && broadcast_once(
                    old(self).spec_network(),
                    final(self).spec_network(),
                    Message::Proposal(p),
                    r,
                ),
    {
        let proposal = Proposal {
            height: view,
            parent: self.locked_digest,
            payload: Vec::new(),  // The host feeds pending commands here.
            justification: self.build_justification(view),
        };
        assert(is_fresh_proposal(proposal, view, old(self).locked()));
        self.network.broadcast(Message::Proposal(proposal))
    }

    /// Sign a vote for `proposal`, whose serialization is `proposal_bytes`: the signer's
    /// refusal, or this replica's vote for the digest of those bytes.
    pub fn build_vote(&self, proposal: &Proposal<P>, proposal_bytes: &[u8]) -> (r: Result<Vote, ConsensusError>)
        ensures
            r is Ok ==> r->Ok_0.height == proposal.height,
            C::obeys_crypto_spec() && K::obeys_signer_spec() ==> match self.spec_signer().refusal(
                vote_bytes(proposal.height, self.spec_crypto().digest_of(proposal_bytes@)),
            ) {
                Some(e) => r == Err::<Vote, ConsensusError>(e),
                None => r is Ok && self.is_own_vote(
                    r->Ok_0,
                    proposal.height,
                    self.spec_crypto().digest_of(proposal_bytes@),
                ),
            },
    {
        let digest = self.crypto.hash(proposal_bytes);
        let sig = self.signer.sign(self.vote_digest_bytes(&proposal.height, &digest).as_slice());
        assemble_vote(proposal.height, digest, self.signer.node_id(), sig)
    }

    /// The justification for a new proposal in `view`.
    pub fn build_justification(&self, _view: Height) -> (j: Justification)
        ensures
            j is Genesis,
    {
        Justification::Genesis
    }

    /// Verify the justification of a proposal for `view`: every justification is accepted.
    pub fn verify_justification(&self, _jc: &Justification, _view: Height) -> (r: Result<(), ConsensusError>)
        ensures
            r is Ok,
    {
        Ok(())
    }

    /// The bytes a vote for `digest` at `view` signs.
    pub fn vote_digest_bytes(&self, view: &Height, digest: &Digest) -> (out: Vec<u8>)
        ensures
            out@ == vote_bytes(*view, *digest),
    {
        let mut out = u64_to_le_bytes(*view);
        out.extend_from_slice(digest);
        assert(out@ =~= vote_bytes(*view, *digest));
        out
    }

    /// The bytes a timeout signs.
    pub fn timeout_digest_bytes(&self, t: &Timeout) -> (out: Vec<u8>)
        ensures
            out@ == timeout_bytes(*t),
    {
        let mut out = u64_to_le_bytes(t.current_view);
        let mut next = u64_to_le_bytes(t.next_view);
        out.append(&mut next);
        if let Some((v, s)) = &t.high_vote {
            let mut vb = u64_to_le_bytes(*v);
            let mut sb = u64_to_le_bytes(*s);
            out.append(&mut vb);
            out.append(&mut sb);
        }
        assert(out@ =~= timeout_bytes(*t));
        out
    }
}

/// Different votes sign different bytes: the signed bytes of a vote determine its height and
/// its digest.
pub proof fn lemma_vote_bytes_injective(v1: Height, d1: Digest, v2: Height, d2: Digest)
    requires
        vote_bytes(v1, d1) == vote_bytes(v2, d2),
    ensures
        v1 == v2,
        d1 == d2,
{
    vstd::bytes::lemma_auto_spec_u64_to_from_le_bytes();
    let b1 = vote_bytes(v1, d1);
    let b2 = vote_bytes(v2, d2);
    assert(spec_u64_to_le_bytes(v1) =~= b1.subrange(0, 8));
    assert(spec_u64_to_le_bytes(v2) =~= b2.subrange(0, 8));
    assert(d1@ =~= b1.subrange(8, 40));
    assert(d2@ =~= b2.subrange(8, 40));
    assert(d1@ == d2@);
    assert(d1 == d2);
}

/// Different timeouts sign different bytes: the signed bytes of a timeout determine its
/// current view, its next view and its highest vote.
pub proof fn lemma_timeout_bytes_injective(t1: Timeout, t2: Timeout)
    requires
        timeout_bytes(t1) == timeout_bytes(t2),
    ensures
        t1.current_view == t2.current_view,
        t1.next_view == t2.next_view,
        t1.high_vote == t2.high_vote,
{
    vstd::bytes::lemma_auto_spec_u64_to_from_le_bytes();
    let b1 = timeout_bytes(t1);
    let b2 = timeout_bytes(t2);
    assert(spec_u64_to_le_bytes(t1.current_view) =~= b1.subrange(0, 8));
    assert(spec_u64_to_le_bytes(t2.current_view) =~= b2.subrange(0, 8));
    assert(spec_u64_to_le_bytes(t1.next_view) =~= b1.subrange(8, 16));
    assert(spec_u64_to_le_bytes(t2.next_view) =~= b2.subrange(8, 16));
    match (t1.high_vote, t2.high_vote) {
        (Some(h1), Some(h2)) => {
            assert(spec_u64_to_le_bytes(h1.0) =~= b1.subrange(16, 24));
            assert(spec_u64_to_le_bytes(h2.0) =~= b2.subrange(16, 24));
            assert(spec_u64_to_le_bytes(h1.1) =~= b1.subrange(24, 32));
            assert(spec_u64_to_le_bytes(h2.1) =~= b2.subrange(24, 32));
        },
        (Some(h1), None) => {
            assert(b1.len() != b2.len());
        },
        (None, Some(h2)) => {
            assert(b1.len() != b2.len());
        },
        (None, None) => {},
    }
}

/// A vote for `digest` at `height` by `voter`, from the outcome of signing it.
pub fn assemble_vote(
    height: Height,
    digest: Digest,
    voter: NodeId,
    signature: Result<Vec<u8>, ConsensusError>,
) -> (r: Result<Vote, ConsensusError>)
    ensures
        match signature {
            Ok(sig) => r == Ok::<Vote, ConsensusError>(
                (Vote { height, digest, voter, signature: sig }),
            ),
            Err(e) => r == Err::<Vote, ConsensusError>(e),
        },
{
    match signature {
        Ok(sig) => Ok(Vote { height, digest, voter, signature: sig }),
        Err(e) => Err(e),
    }
}

} // verus!
