use vstd::prelude::*;

verus! {

/// Delta, the number of milliseconds a replica waits for a decision before timing out and moving
/// to the next view. This comes from the partial synchrony assumption of BFT algorithms: the
/// network is synchronous after some unknown global stabilization time (GST).
/// The paper uses a fixed 3*Delta timeout; this crate backs the timeout off exponentially
/// (doubling it per consecutive timeout view change), to avoid needless view changes caused by
/// slow replicas.
pub const DELTA: u64 = 500;

/// Dummy block hash. On timeout, each node votes for the dummy block to form a timeout
/// certificate.
pub const DUMMY_BLOCK_HASH: Digest = [
    0, 0, 0, 0, 0, 0, 0, 0, 0, 0, 0, 0, 0, 0, 0, 0, 0, 0, 0, 0, 0, 0, 0, 0, 0, 0, 0, 0, 0, 0, 0, 0,
];

/// Identifies a replica (validator) in the consensus group.
pub type NodeId = usize;

/// A monotonically increasing height number. Each height has a designated leader.
pub type Height = u64;

/// A cryptographic hash digest.
pub type Digest = [u8; 32];

/// The set of validators that participate in consensus.
#[derive(Debug, Clone)]
pub struct CommitteeSet {
    /// All validator ids in canonical order.
    pub nodes: Vec<NodeId>,
    /// The number of faulty validators tolerated: `n = 3f + 1`.
    pub f: usize,
}

impl CommitteeSet {
    /// Position in `nodes` of the leader of `view`: round-robin over the canonical order.
    pub open spec fn leader_index(&self, view: Height) -> int {
        (view as usize) as int % (self.nodes@.len() as int)
    }

    /// The leader of `view`.
    pub open spec fn leader(&self, view: Height) -> NodeId {
        self.nodes@[self.leader_index(view)]
    }

    /// How many views after `start` the validator at position `j` of `nodes` leads.
    pub open spec fn lead_offset(&self, start: Height, j: int) -> int {
        (j + self.nodes@.len() - (start as int % self.nodes@.len() as int)) % (self.nodes@.len() as int)
    }

    /// The validators as a set.
    pub open spec fn members(&self) -> Set<NodeId> {
        self.nodes@.to_set()
    }

    /// Total number of validators `n`.
    pub fn n(&self) -> (n: usize)
        ensures
            n == self.nodes@.len(),
    {
        self.nodes.len()
    }

    /// The quorum size needed for a certificate: `2f + 1`.
    pub fn quorum_size(&self) -> (q: usize)
        requires
            2 * self.f + 1 <= usize::MAX,
        ensures
            q == 2 * self.f + 1,
    {
        2 * self.f + 1
    }

    /// Returns the leader for the given view (round-robin).
    pub fn leader_of(&self, view: Height) -> (id: NodeId)
        requires
            self.nodes@.len() > 0,
        ensures
            id == self.leader(view),
    {
        self.nodes[(view as usize) % self.nodes.len()]
    }

    /// Returns true iff `id` is the leader of `view`.
    pub fn is_leader_of(&self, id: NodeId, view: Height) -> (b: bool)
        requires
            self.nodes@.len() > 0,
        ensures
            b <==> id == self.leader(view),
    {
        self.leader_of(view) == id
    }
}

/// The leader of every view is one of the validators.
pub proof fn lemma_leader_is_member(cs: &CommitteeSet, view: Height)
    requires
        cs.nodes@.len() > 0,
    ensures
        0 <= cs.leader_index(view) < cs.nodes@.len(),
        cs.members().contains(cs.leader(view)),
{
    assert(cs.nodes@.contains(cs.leader(view)));
}

/// Leadership is round-robin: `n` views after any view, the same validator leads again
/// (for views that fit in a `usize`).
pub proof fn lemma_leader_rotation(cs: &CommitteeSet, view: Height)
    requires
        cs.nodes@.len() > 0,
        view + cs.nodes@.len() <= usize::MAX,
    ensures
        cs.leader((view + cs.nodes@.len()) as Height) == cs.leader(view),
{
    let n = cs.nodes@.len() as int;
    let w = (view + cs.nodes@.len()) as Height;
    assert((w as usize) as int == view as int + n);
    assert((view as usize) as int == view as int);
    vstd::arithmetic::div_mod::lemma_mod_add_multiples_vanish(view as int, n);
}

/// In the first `n` views, view `i` is led by the validator at position `i` of `nodes`.
pub proof fn lemma_leader_of_small_view(cs: &CommitteeSet, view: Height)
    requires
        view < cs.nodes.len(),
    ensures
        cs.leader(view) == cs.nodes@[view as int],
{
    assert((view as usize) as int == view as int);
    vstd::arithmetic::div_mod::lemma_small_mod(view as nat, cs.nodes@.len());
}

/// Round-robin fairness: in any `n` consecutive views (that fit in a `usize`) every position
/// of `nodes` leads exactly once: the leaders of views `start .. start + n` are the
/// validators in `nodes`, each once.
pub proof fn lemma_leaders_of_consecutive_views(cs: &CommitteeSet, start: Height)
    requires
        cs.nodes@.len() > 0,
        start + cs.nodes@.len() - 1 <= usize::MAX,
    ensures
        forall|j: int|
            0 <= j < cs.nodes@.len() ==> {
                let i = #[trigger] cs.lead_offset(start, j);
                &&& 0 <= i < cs.nodes@.len()
                &&& cs.leader_index((start + i) as Height) == j
                &&& cs.leader((start + i) as Height) == cs.nodes@[j]
            },
        forall|i1: int, i2: int|
            0 <= i1 < cs.nodes@.len() && 0 <= i2 < cs.nodes@.len() && i1 != i2
                ==> #[trigger] cs.leader_index((start + i1) as Height) != #[trigger] cs.leader_index(
                (start + i2) as Height,
            ),
{
    let n = cs.nodes@.len() as int;
    assert forall|i: int| 0 <= i < n implies #[trigger] cs.leader_index((start + i) as Height) == (
    start + i) % n by {
        assert((((start + i) as Height) as usize) as int == start + i);
    }
    assert forall|j: int| 0 <= j < n implies {
        let i = #[trigger] cs.lead_offset(start, j);
        &&& 0 <= i < n
        &&& cs.leader_index((start + i) as Height) == j
        &&& cs.leader((start + i) as Height) == cs.nodes@[j]
    } by {
        let sm = start as int % n;
        let i = cs.lead_offset(start, j);
        vstd::arithmetic::div_mod::lemma_mod_bound(start as int, n);
        vstd::arithmetic::div_mod::lemma_mod_bound(j + n - sm, n);
        vstd::arithmetic::div_mod::lemma_add_mod_noop(start as int, i, n);
        vstd::arithmetic::div_mod::lemma_small_mod(i as nat, n as nat);
        vstd::arithmetic::div_mod::lemma_mod_twice(start as int, n);
        vstd::arithmetic::div_mod::lemma_add_mod_noop(sm, j + n - sm, n);
        vstd::arithmetic::div_mod::lemma_mod_add_multiples_vanish(j, n);
        vstd::arithmetic::div_mod::lemma_small_mod(j as nat, n as nat);
        assert(cs.leader_index((start + i) as Height) == (start + i) % n);
        assert((start + i) % n == j);
        assert(cs.leader((start + i) as Height) == cs.nodes@[j]);
    }
    assert forall|i1: int, i2: int|
        0 <= i1 < n && 0 <= i2 < n && i1 != i2 implies #[trigger] cs.leader_index(
        (start + i1) as Height,
    ) != #[trigger] cs.leader_index((start + i2) as Height) by {
        let a = start + i1;
        let b = start + i2;
        assert(cs.leader_index(a as Height) == a % n);
        assert(cs.leader_index(b as Height) == b % n);
        vstd::arithmetic::div_mod::lemma_fundamental_div_mod(a, n);
        vstd::arithmetic::div_mod::lemma_fundamental_div_mod(b, n);
        if a % n == b % n {
            let qa = a / n;
            let qb = b / n;
            assert(a - b == n * (qa - qb)) by (nonlinear_arith)
                requires
                    a == n * qa + a % n,
                    b == n * qb + b % n,
                    a % n == b % n,
            ;
            assert(false) by (nonlinear_arith)
                requires
                    a - b == n * (qa - qb),
                    -n < a - b < n,
                    a != b,
                    n > 0,
            ;
        }
    }
}

/// Quorum intersection: with `n <= 3f + 1` validators, any two sets of at least `2f + 1`
/// validators have at least `f + 1` validators in common.
pub proof fn lemma_quorums_intersect(cs: &CommitteeSet, q1: Set<NodeId>, q2: Set<NodeId>)
    requires
        cs.nodes@.len() <= 3 * cs.f + 1,
        q1.subset_of(cs.members()),
        q2.subset_of(cs.members()),
        q1.len() >= 2 * cs.f + 1,
        q2.len() >= 2 * cs.f + 1,
    ensures
        q1.intersect(q2).len() >= cs.f + 1,
{
    let m = cs.members();
    cs.nodes@.lemma_cardinality_of_set();
    vstd::set_lib::lemma_len_subset(q1, m);
    vstd::set_lib::lemma_len_subset(q2, m);
    vstd::set_lib::lemma_set_intersect_union_lens(q1, q2);
    assert((q1 + q2).subset_of(m));
    vstd::set_lib::lemma_len_subset(q1 + q2, m);
}

/// Two quorums always share an honest validator: whatever set of at most `f` validators is
/// faulty, some validator in both quorums is not in it.
pub proof fn lemma_quorums_share_honest(
    cs: &CommitteeSet,
    q1: Set<NodeId>,
    q2: Set<NodeId>,
    faulty: Set<NodeId>,
)
    requires
        cs.nodes@.len() <= 3 * cs.f + 1,
        q1.subset_of(cs.members()),
        q2.subset_of(cs.members()),
        q1.len() >= 2 * cs.f + 1,
        q2.len() >= 2 * cs.f + 1,
        faulty.finite(),
        faulty.len() <= cs.f,
    ensures
        exists|id: NodeId| q1.contains(id) && q2.contains(id) && !faulty.contains(id),
{
    lemma_quorums_intersect(cs, q1, q2);
    let both = q1.intersect(q2);
    cs.nodes@.lemma_cardinality_of_set();
    vstd::set_lib::lemma_len_subset(q1, cs.members());
    vstd::set_lib::lemma_len_intersect(q1, q2);
    assert(both.finite());
    vstd::set_lib::lemma_set_difference_len(both, faulty);
    vstd::set_lib::lemma_len_intersect(faulty, both);
    assert(faulty.intersect(both) =~= both.intersect(faulty));
    let rest = both.difference(faulty);
    assert(rest.len() > 0);
    let id = rest.choose();
    assert(rest.contains(id));
}

} // verus!
