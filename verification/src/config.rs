use vstd::prelude::*;
use vstd::arithmetic::power2::pow2;

use std::time::Duration;

use crate::types::{CommitteeSet, Height, NodeId};

verus! {

/// The length of a `Duration` in nanoseconds.
pub uninterp spec fn duration_nanos(d: Duration) -> nat;

/// The longest `Duration` in nanoseconds: `u64::MAX` seconds and 999,999,999 nanoseconds.
pub open spec fn max_duration_nanos() -> nat {
    18446744073709551615999999999
}

/// The back-off exponent for a view: the view itself, capped at 10.
pub open spec fn backoff_exponent(view: Height) -> nat {
    if view < 10 { view as nat } else { 10 }
}

/// The factor by which the base timeout is multiplied in a view: `2^min(view, 10)`.
pub open spec fn backoff_factor(view: Height) -> nat {
    pow2(backoff_exponent(view))
}

/// The timeout of `view` in nanoseconds, for a base timeout of `base` nanoseconds.
pub open spec fn view_timeout_nanos(base: nat, view: Height) -> nat {
    base * backoff_factor(view)
}

/// `Duration::as_nanos`: the whole length of `d` in nanoseconds, which std documents to be at
/// most `Duration::MAX`, that is `u64::MAX` seconds and 999,999,999 nanoseconds.
#[verifier::external_body]
fn duration_as_nanos(d: &Duration) -> (n: u128)
    ensures
        n == duration_nanos(*d),
        n <= max_duration_nanos(),
{
    d.as_nanos()
}

/// `Duration * u32` (std's `Mul<u32>` for `Duration`): the exact product, which panics when it
/// would exceed `Duration::MAX`; that input is excluded.
#[verifier::external_body]
fn duration_mul(d: Duration, k: u32) -> (r: Duration)
    requires
        duration_nanos(d) * k <= max_duration_nanos(),
    ensures
        duration_nanos(r) == duration_nanos(d) * k,
{
    d * k
}

/// `Clone` for `Duration`: `Duration` is `Copy`, so a clone is the same value.
pub assume_specification[ <Duration as Clone>::clone ](d: &Duration) -> (r: Duration)
    ensures
        r == *d,
;

/// Tunable parameters for the Simplex protocol.
#[derive(Debug, Clone)]
pub struct Config {
    /// The replica that owns this configuration.
    pub own_id: NodeId,
    /// The full replica set.
    pub replica_set: CommitteeSet,
    /// Base timeout for a view change, doubled per view for exponential back-off
    /// (see `view_timeout`).
    pub view_timeout_base: Duration,
    /// How many views ahead we allow votes/locks to carry over before requiring a fresh proposal.
    pub max_view_gap: u64,
    /// Batch size limit (bytes) for a single proposal payload.
    pub max_payload_bytes: usize,
}

/// `2^e` for a back-off exponent `e`.
fn backoff_multiplier(e: u32) -> (m: u32)
    requires
        e <= 10,
    ensures
        m == pow2(e as nat),
{
    assert(pow2(0) == 1) by {
        vstd::arithmetic::power2::lemma2_to64();
    }
    let mut m: u32 = 1;
    let mut i: u32 = 0;
    while i < e
        invariant
            i <= e <= 10,
            m == pow2(i as nat),
        decreases e - i,
    {
        proof {
            vstd::arithmetic::power2::lemma2_to64();
            vstd::arithmetic::power2::lemma_pow2_unfold((i + 1) as nat);
            vstd::arithmetic::power2::lemma_pow2_strictly_increases(i as nat, 10);
        }
        m = m * 2;
        i = i + 1;
    }
    m
}

impl Config {
    /// The timeout for a given view: exponential back-off, `base * 2^view`, with the exponent
    /// capped at 10.
    pub fn view_timeout(&self, view: Height) -> (d: Duration)
        requires
            view_timeout_nanos(duration_nanos(self.view_timeout_base), view) <= max_duration_nanos(),
        ensures
            duration_nanos(d) == view_timeout_nanos(duration_nanos(self.view_timeout_base), view),
    {
        let exp: u64 = if view < 10 { view } else { 10 };
        let factor = backoff_multiplier(exp as u32);
        duration_mul(self.view_timeout_base, factor)
    }

    /// The timeout for a given view as `view_timeout` computes it, or `None` where that
    /// timeout would exceed the longest `Duration`.
    pub fn checked_view_timeout(&self, view: Height) -> (d: Option<Duration>)
        ensures
            match d {
                Some(t) => view_timeout_nanos(duration_nanos(self.view_timeout_base), view)
                    <= max_duration_nanos() && duration_nanos(t) == view_timeout_nanos(
                    duration_nanos(self.view_timeout_base),
                    view,
                ),
                None => view_timeout_nanos(duration_nanos(self.view_timeout_base), view)
                    > max_duration_nanos(),
            },
    {
        let base = duration_as_nanos(&self.view_timeout_base);
        let exp: u64 = if view < 10 { view } else { 10 };
        let factor = backoff_multiplier(exp as u32);
        proof {
            vstd::arithmetic::power2::lemma2_to64();
            if exp < 10 {
                vstd::arithmetic::power2::lemma_pow2_strictly_increases(exp as nat, 10);
            }
            assert(factor <= 1024);
            assert(base * factor <= max_duration_nanos() * 1024) by (nonlinear_arith)
                requires
                    base <= max_duration_nanos(),
                    factor <= 1024,
            ;
        }
        let total: u128 = base * (factor as u128);
        if total <= 18446744073709551615999999999u128 {
            Some(self.view_timeout(view))
        } else {
            None
        }
    }
}

/// The timeout of a view is the base timeout times two to the power of the view, with the
/// exponent capped at 10; in particular the timeout of view 0 is the base itself.
pub proof fn lemma_view_timeout_closed_form(base: nat, view: Height)
    ensures
        view_timeout_nanos(base, view) == base * pow2(if view < 10 { view as nat } else { 10 }),
        view_timeout_nanos(base, 0) == base,
{
    vstd::arithmetic::power2::lemma2_to64();
    assert(base * 1 == base);
}

/// The back-off is capped: from view 10 on, every view has the timeout of view 10.
pub proof fn lemma_backoff_capped(base: nat, view: Height)
    requires
        view >= 10,
    ensures
        view_timeout_nanos(base, view) == view_timeout_nanos(base, 10),
{
}

/// Below the cap, each view's timeout is twice the previous view's.
pub proof fn lemma_backoff_doubles(base: nat, view: Height)
    requires
        view < 10,
    ensures
        view_timeout_nanos(base, (view + 1) as Height) == 2 * view_timeout_nanos(base, view),
{
    vstd::arithmetic::power2::lemma_pow2_unfold((view + 1) as nat);
    assert(base * (2 * pow2(view as nat)) == 2 * (base * pow2(view as nat))) by (nonlinear_arith);
}

/// Timeouts never shrink as the view grows.
pub proof fn lemma_backoff_monotonic(base: nat, v1: Height, v2: Height)
    requires
        v1 <= v2,
    ensures
        view_timeout_nanos(base, v1) <= view_timeout_nanos(base, v2),
{
    let e1 = backoff_exponent(v1);
    let e2 = backoff_exponent(v2);
    if e1 < e2 {
        vstd::arithmetic::power2::lemma_pow2_strictly_increases(e1, e2);
    }
    assert(pow2(e1) <= pow2(e2));
    vstd::arithmetic::mul::lemma_mul_inequality(pow2(e1) as int, pow2(e2) as int, base as int);
    assert(base * pow2(e1) == pow2(e1) * base) by (nonlinear_arith);
    assert(base * pow2(e2) == pow2(e2) * base) by (nonlinear_arith);
}

} // verus!
