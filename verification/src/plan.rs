//! The sample planner: turns random draws into the ordered capture plan.
//!
//! Each sample instant is drawn as a full-width random value and reduced
//! modulo the stream duration — uniform over `[0, duration)` when the
//! duration divides the random domain evenly, and an accepted near-uniform
//! approximation otherwise. The reduced instants are then sorted ascending.
//! Two draws may coincide; duplicates are kept, not an error.

use crate::sort::lemma_spec_sort_props;
use crate::sort::sort_timestamps;
use crate::sort::sorted;
use crate::sort::spec_sort;
use vstd::prelude::*;
use vstd::seq_lib::group_to_multiset_ensures;

verus! {

/// Every drawn value reduced modulo the duration.
pub open spec fn spec_reduced(draws: Seq<u64>, duration: u64) -> Seq<u64>
    recommends
        duration > 0,
{
    draws.map(|i: int, d: u64| d % duration)
}

/// The capture plan for the given draws: the draws reduced modulo
/// `duration`, sorted into non-decreasing order.
pub open spec fn spec_plan(draws: Seq<u64>, duration: u64) -> Seq<u64>
    recommends
        duration > 0,
{
    spec_sort(spec_reduced(draws, duration))
}

/// Relies on rand::random: one value from the thread-local pseudo-random
/// generator. Nothing is promised of the value.
#[verifier::external_body]
fn draw_random() -> u64 {
    rand::random()
}

/// Plans the capture timestamps for already-drawn random values: each draw
/// reduced modulo `duration`, the results sorted non-decreasing. The result
/// has exactly one timestamp per draw, every timestamp is below `duration`,
/// and it is pinned to `spec_plan`, so identical draws always give the
/// identical plan.
pub fn plan_from_draws(draws: &Vec<u64>, duration: u64) -> (r: Vec<u64>)
    requires
        duration > 0,
    ensures
        r@ == spec_plan(draws@, duration),
        r@.len() == draws@.len(),
        sorted(r@),
        forall|i: int| 0 <= i < r@.len() ==> r@[i] < duration,
        r@.to_multiset() == spec_reduced(draws@, duration).to_multiset(),
{
    let mut reduced: Vec<u64> = Vec::new();
    let mut i: usize = 0;
    while i < draws.len()
        invariant
            0 <= i <= draws@.len(),
            duration > 0,
            reduced@ == spec_reduced(draws@.take(i as int), duration),
        decreases draws@.len() - i,
    {
        reduced.push(draws[i] % duration);
        proof {
            assert(reduced@ =~= spec_reduced(draws@.take(i + 1), duration));
        }
        i += 1;
    }
    proof {
        assert(draws@.take(draws@.len() as int) =~= draws@);
    }
    let r = sort_timestamps(&reduced);
    proof {
        broadcast use group_to_multiset_ensures;

        lemma_spec_sort_props(reduced@);
        assert forall|k: int| 0 <= k < r@.len() implies r@[k] < duration by {
            assert(r@.contains(r@[k]));
            assert(r@.to_multiset().count(r@[k]) > 0);
            assert(reduced@.contains(r@[k]));
        }
    }
    r
}

/// Draws `samples` fresh random instants and plans them over `duration`.
/// Whatever the random source returns, the plan has exactly `samples`
/// entries, each in `[0, duration)`, sorted non-decreasing.
pub fn plan_samples(samples: u32, duration: u64) -> (r: Vec<u64>)
    requires
        duration > 0,
    ensures
        r@.len() == samples,
        sorted(r@),
        forall|i: int| 0 <= i < r@.len() ==> r@[i] < duration,
{
    let mut draws: Vec<u64> = Vec::new();
    let mut i: u32 = 0;
    while i < samples
        invariant
            i <= samples,
            draws@.len() == i,
        decreases samples - i,
    {
        draws.push(draw_random());
        i += 1;
    }
    plan_from_draws(&draws, duration)
}

/// Replaying a task whose random source produced the same draws over the
/// same duration reproduces the identical capture plan: the plan is a
/// function of the draws and the duration alone. (When the random source is
/// not seeded identically the draws themselves may differ — an inherent
/// non-determinism of the source, not of the planner.)
pub proof fn lemma_plan_replay(draws1: Seq<u64>, draws2: Seq<u64>, duration: u64)
    requires
        draws1 == draws2,
        duration > 0,
    ensures
        spec_plan(draws1, duration) == spec_plan(draws2, duration),
{
}

} // verus!
