//! Payload generator: filler byte sequences of a requested size. The
//! content is arbitrary — its only job is to occupy space and cost gas and
//! bandwidth — so uniformly random bytes are used, and only the length is
//! ever relied on.

use rand::distributions::Standard;
use rand::Rng;
use vstd::prelude::*;

use crate::planner::PlanEntry;

verus! {

/// Relies on rand::thread_rng and Rng::sample_iter over the Standard
/// distribution: an endless stream of uniform random bytes, of which exactly
/// `size` are taken. The content is random, so nothing beyond the length is
/// promised.
#[verifier::external_body]
fn generate_random_data(size: usize) -> (r: Vec<u8>)
    ensures
        r@.len() == size,
{
    rand::thread_rng().sample_iter(Standard).take(size).collect::<Vec<u8>>()
}

/// One filler payload per plan entry, each of exactly the planned size, in
/// plan order. Succeeds for a zero-sized entry, whose payload is empty.
pub fn payloads_for_plan(plan: &Vec<PlanEntry>) -> (r: Vec<Vec<u8>>)
    ensures
        r@.len() == plan@.len(),
        forall|i: int| 0 <= i < plan@.len() ==> #[trigger] r@[i]@.len() == plan@[i].size,
{
    let mut out: Vec<Vec<u8>> = Vec::new();
    let mut i: usize = 0;
    while i < plan.len()
        invariant
            i <= plan@.len(),
            out@.len() == i,
            forall|j: int| 0 <= j < i ==> #[trigger] out@[j]@.len() == plan@[j].size,
        decreases plan@.len() - i,
    {
        out.push(generate_random_data(plan[i].size));
        i = i + 1;
    }
    out
}

} // verus!
