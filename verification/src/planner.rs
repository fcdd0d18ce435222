//! Packing planner: decides how many transactions of what payload size are
//! needed to occupy a target fraction of a block's data capacity.

use vstd::arithmetic::div_mod::{
    lemma_div_is_ordered, lemma_div_multiples_vanish, lemma_div_pos_is_pos,
    lemma_fundamental_div_mod, lemma_mod_division_less_than_divisor,
};
use vstd::arithmetic::mul::lemma_mul_is_commutative;
use vstd::prelude::*;

use crate::errors::ConfigError;

verus! {

/// One kilobyte, in bytes.
pub const KB: usize = 1024;

/// Reserve subtracted from every transaction's byte budget to leave room for
/// the non-payload fields of the serialized transaction (sender, receiver,
/// nonce, gas price). A fixed estimate: the exact overhead is unknowable
/// before signing.
pub const TRIM_BYTES: usize = 300;

/// The block's assumed data capacity: 2 MB.
pub const BLOCK_MAX_BYTES: usize = 2 * 1024 * 1024;

/// One planned transaction: how many payload bytes it carries and which
/// account nonce it must be signed with.
#[derive(Clone, Copy, Debug, PartialEq, Eq, Structural)]
pub struct PlanEntry {
    pub size: usize,
    pub nonce: u64,
}

/// Payload bytes available in one chunk transaction once the serialization
/// reserve is taken out. Negative when the chunk budget is smaller than the
/// reserve, which the planner rejects.
pub open spec fn spec_chunk_bytes(chunk_size_kb: int) -> int {
    chunk_size_kb * KB - TRIM_BYTES
}

/// Total payload bytes the plan aims for: `fill_pct` percent of the block's
/// data capacity, rounded down.
pub open spec fn spec_total_bytes(fill_pct: int, block_capacity_bytes: int) -> int {
    fill_pct * block_capacity_bytes / 100
}

/// Number of maximum-size chunk transactions in the plan.
pub open spec fn spec_full_chunks(fill_pct: int, chunk_size_kb: int, block_capacity_bytes: int) -> int {
    spec_total_bytes(fill_pct, block_capacity_bytes) / spec_chunk_bytes(chunk_size_kb)
}

/// Payload size of the single trailing remainder transaction: whatever of the
/// byte target the full chunks leave uncovered, less the serialization
/// reserve, clamped to zero so that no negative size is ever requested.
pub open spec fn spec_remainder(fill_pct: int, chunk_size_kb: int, block_capacity_bytes: int) -> int {
    let gap = spec_total_bytes(fill_pct, block_capacity_bytes)
        - spec_full_chunks(fill_pct, chunk_size_kb, block_capacity_bytes)
            * spec_chunk_bytes(chunk_size_kb);
    if gap > TRIM_BYTES {
        gap - TRIM_BYTES
    } else {
        0
    }
}

/// The whole plan as a function of its inputs alone: `full_chunks` entries of
/// the chunk payload size followed by exactly one remainder entry, nonces
/// assigned in emission order starting at `start_nonce`.
pub open spec fn spec_plan(
    fill_pct: int,
    chunk_size_kb: int,
    block_capacity_bytes: int,
    start_nonce: int,
) -> Seq<PlanEntry> {
    let full = spec_full_chunks(fill_pct, chunk_size_kb, block_capacity_bytes);
    let chunk = spec_chunk_bytes(chunk_size_kb);
    let rem = spec_remainder(fill_pct, chunk_size_kb, block_capacity_bytes);
    Seq::new(
        (full + 1) as nat,
        |i: int|
            PlanEntry {
                size: (if i < full {
                    chunk
                } else {
                    rem
                }) as usize,
                nonce: (start_nonce + i) as u64,
            },
    )
}

/// Whether the planner accepts this configuration: the fill percentage must
/// lie in 1..=100 and the chunk budget must leave room for payload beyond the
/// serialization reserve.
pub open spec fn config_ok(fill_pct: int, chunk_size_kb: int) -> bool {
    &&& 1 <= fill_pct <= 100
    &&& spec_chunk_bytes(chunk_size_kb) > 0
}

/// Converts a per-transaction calldata budget given in kilobytes into the
/// payload bytes actually available once the serialization reserve is
/// deducted.
pub fn calldata_kb_to_bytes(chunk_size_kb: usize) -> (r: Result<usize, ConfigError>)
    requires
        chunk_size_kb * KB <= usize::MAX,
    ensures
        r is Ok <==> spec_chunk_bytes(chunk_size_kb as int) > 0,
        r is Ok ==> r->Ok_0 == spec_chunk_bytes(chunk_size_kb as int),
        r is Err ==> r == Err::<usize, ConfigError>(ConfigError::ChunkTooSmall),
{
    let budget = chunk_size_kb * KB;
    if budget > TRIM_BYTES {
        Ok(budget - TRIM_BYTES)
    } else {
        Err(ConfigError::ChunkTooSmall)
    }
}

/// Builds the packing plan: `full_chunks` maximum-size entries followed by
/// one remainder entry (kept even when its size is zero, so the plan — and
/// hence the bundle handed to the relay — is never empty), with contiguous
/// strictly increasing nonces starting at `start_nonce`.
///
/// Rejects a fill percentage outside 1..=100 and a chunk budget that leaves
/// no payload room, and accepts everything else.
pub fn build_plan(
    fill_pct: u8,
    chunk_size_kb: usize,
    block_capacity_bytes: usize,
    start_nonce: u64,
) -> (r: Result<Vec<PlanEntry>, ConfigError>)
    requires
        chunk_size_kb * KB <= usize::MAX,
        100 * block_capacity_bytes <= usize::MAX,
        start_nonce + block_capacity_bytes <= u64::MAX,
    ensures
        r is Ok <==> config_ok(fill_pct as int, chunk_size_kb as int),
        r is Ok ==> r->Ok_0@ == spec_plan(
            fill_pct as int,
            chunk_size_kb as int,
            block_capacity_bytes as int,
            start_nonce as int,
        ),
        r is Ok ==> r->Ok_0@.len() >= 1,
        !(1 <= fill_pct <= 100) ==> r == Err::<Vec<PlanEntry>, ConfigError>(
            ConfigError::InvalidFillPct,
        ),
        1 <= fill_pct <= 100 && spec_chunk_bytes(chunk_size_kb as int) <= 0 ==> r == Err::<
            Vec<PlanEntry>,
            ConfigError,
        >(ConfigError::ChunkTooSmall),
{
    if !(1 <= fill_pct && fill_pct <= 100) {
        return Err(ConfigError::InvalidFillPct);
    }
    let chunk_bytes = match calldata_kb_to_bytes(chunk_size_kb) {
        Ok(c) => c,
        Err(e) => {
            return Err(e);
        },
    };
    proof {
        assert((fill_pct as int) * (block_capacity_bytes as int) <= 100 * (
        block_capacity_bytes as int)) by (nonlinear_arith)
            requires
                fill_pct <= 100,
                block_capacity_bytes >= 0,
        ;
    }
    let total_bytes = (fill_pct as usize) * block_capacity_bytes / 100;
    let full_chunks = total_bytes / chunk_bytes;
    proof {
        lemma_fundamental_div_mod(total_bytes as int, chunk_bytes as int);
        lemma_mod_division_less_than_divisor(total_bytes as int, chunk_bytes as int);
        lemma_mul_is_commutative(full_chunks as int, chunk_bytes as int);
        assert(full_chunks * chunk_bytes == total_bytes - (total_bytes as int) % (
        chunk_bytes as int));
        assert(full_chunks <= full_chunks * chunk_bytes) by (nonlinear_arith)
            requires
                chunk_bytes >= 1,
                full_chunks >= 0,
        ;
    }
    let used = full_chunks * chunk_bytes;
    let gap = total_bytes - used;
    let remainder = if gap > TRIM_BYTES {
        gap - TRIM_BYTES
    } else {
        0
    };
    let ghost gplan = spec_plan(
        fill_pct as int,
        chunk_size_kb as int,
        block_capacity_bytes as int,
        start_nonce as int,
    );
    let mut plan: Vec<PlanEntry> = Vec::new();
    let mut i: usize = 0;
    while i < full_chunks
        invariant
            i <= full_chunks,
            full_chunks == spec_full_chunks(
                fill_pct as int,
                chunk_size_kb as int,
                block_capacity_bytes as int,
            ),
            chunk_bytes == spec_chunk_bytes(chunk_size_kb as int),
            full_chunks <= total_bytes <= block_capacity_bytes,
            start_nonce + block_capacity_bytes <= u64::MAX,
            gplan == spec_plan(
                fill_pct as int,
                chunk_size_kb as int,
                block_capacity_bytes as int,
                start_nonce as int,
            ),
            plan@.len() == i,
            forall|j: int| 0 <= j < i ==> plan@[j] == gplan[j],
        decreases full_chunks - i,
    {
        plan.push(PlanEntry { size: chunk_bytes, nonce: start_nonce + (i as u64) });
        i = i + 1;
    }
    plan.push(PlanEntry { size: remainder, nonce: start_nonce + (full_chunks as u64) });
    proof {
        assert(plan@ =~= gplan);
    }
    Ok(plan)
}

/// The plan never overshoots its byte target: for every accepted
/// configuration the chunk count and the remainder are non-negative, the
/// bytes they request together stay within the derived total, and no entry —
/// the remainder included — exceeds the per-transaction chunk budget.
pub proof fn lemma_plan_within_budget(fill_pct: int, chunk_size_kb: int, block_capacity_bytes: int)
    requires
        config_ok(fill_pct, chunk_size_kb),
        block_capacity_bytes >= 0,
    ensures
        spec_full_chunks(fill_pct, chunk_size_kb, block_capacity_bytes) >= 0,
        spec_remainder(fill_pct, chunk_size_kb, block_capacity_bytes) >= 0,
        spec_full_chunks(fill_pct, chunk_size_kb, block_capacity_bytes) * spec_chunk_bytes(
            chunk_size_kb,
        ) + spec_remainder(fill_pct, chunk_size_kb, block_capacity_bytes) <= spec_total_bytes(
            fill_pct,
            block_capacity_bytes,
        ),
        spec_remainder(fill_pct, chunk_size_kb, block_capacity_bytes) < spec_chunk_bytes(
            chunk_size_kb,
        ),
{
    let chunk = spec_chunk_bytes(chunk_size_kb);
    let total = spec_total_bytes(fill_pct, block_capacity_bytes);
    assert(fill_pct * block_capacity_bytes >= 0) by (nonlinear_arith)
        requires
            fill_pct >= 1,
            block_capacity_bytes >= 0,
    ;
    lemma_div_pos_is_pos(fill_pct * block_capacity_bytes, 100);
    lemma_div_pos_is_pos(total, chunk);
    lemma_fundamental_div_mod(total, chunk);
    lemma_mod_division_less_than_divisor(total, chunk);
    lemma_mul_is_commutative(total / chunk, chunk);
}

/// The plan is never empty: even when the byte target is smaller than one
/// chunk, the single remainder entry is still emitted, so the bundle handed
/// to the relay always carries at least one transaction.
pub proof fn lemma_plan_nonempty(
    fill_pct: int,
    chunk_size_kb: int,
    block_capacity_bytes: int,
    start_nonce: int,
)
    requires
        config_ok(fill_pct, chunk_size_kb),
        block_capacity_bytes >= 0,
    ensures
        spec_plan(fill_pct, chunk_size_kb, block_capacity_bytes, start_nonce).len() >= 1,
{
    lemma_plan_within_budget(fill_pct, chunk_size_kb, block_capacity_bytes);
}

/// Nonces across one plan form a contiguous, strictly increasing range that
/// starts at the input nonce and has length `full_chunks + 1`.
pub proof fn lemma_plan_nonces_contiguous(
    fill_pct: int,
    chunk_size_kb: int,
    block_capacity_bytes: int,
    start_nonce: int,
)
    requires
        config_ok(fill_pct, chunk_size_kb),
        block_capacity_bytes >= 0,
        start_nonce >= 0,
        start_nonce + block_capacity_bytes <= u64::MAX,
    ensures
        spec_plan(fill_pct, chunk_size_kb, block_capacity_bytes, start_nonce).len()
            == spec_full_chunks(fill_pct, chunk_size_kb, block_capacity_bytes) + 1,
        forall|i: int|
            0 <= i < spec_plan(fill_pct, chunk_size_kb, block_capacity_bytes, start_nonce).len()
                ==> #[trigger] spec_plan(
                fill_pct,
                chunk_size_kb,
                block_capacity_bytes,
                start_nonce,
            )[i].nonce == start_nonce + i,
        forall|i: int, j: int|
            0 <= i < j < spec_plan(
                fill_pct,
                chunk_size_kb,
                block_capacity_bytes,
                start_nonce,
            ).len() ==> #[trigger] spec_plan(
                fill_pct,
                chunk_size_kb,
                block_capacity_bytes,
                start_nonce,
            )[i].nonce < #[trigger] spec_plan(
                fill_pct,
                chunk_size_kb,
                block_capacity_bytes,
                start_nonce,
            )[j].nonce,
{
    let chunk = spec_chunk_bytes(chunk_size_kb);
    let total = spec_total_bytes(fill_pct, block_capacity_bytes);
    let full = spec_full_chunks(fill_pct, chunk_size_kb, block_capacity_bytes);
    lemma_plan_within_budget(fill_pct, chunk_size_kb, block_capacity_bytes);
    assert(fill_pct * block_capacity_bytes <= 100 * block_capacity_bytes) by (nonlinear_arith)
        requires
            fill_pct <= 100,
            block_capacity_bytes >= 0,
    ;
    lemma_div_is_ordered(fill_pct * block_capacity_bytes, 100 * block_capacity_bytes, 100);
    lemma_div_multiples_vanish(block_capacity_bytes, 100);
    assert(total <= block_capacity_bytes);
    lemma_fundamental_div_mod(total, chunk);
    lemma_mod_division_less_than_divisor(total, chunk);
    lemma_mul_is_commutative(full, chunk);
    assert(full <= full * chunk) by (nonlinear_arith)
        requires
            chunk >= 1,
            full >= 0,
    ;
    assert(full <= block_capacity_bytes);
}

/// The planner is a pure function of its inputs: two plans derived from
/// identical inputs are identical, entry for entry.
pub proof fn lemma_plan_idempotent(
    p1: Seq<PlanEntry>,
    p2: Seq<PlanEntry>,
    fill_pct: int,
    chunk_size_kb: int,
    block_capacity_bytes: int,
    start_nonce: int,
)
    requires
        p1 == spec_plan(fill_pct, chunk_size_kb, block_capacity_bytes, start_nonce),
        p2 == spec_plan(fill_pct, chunk_size_kb, block_capacity_bytes, start_nonce),
    ensures
        p1 == p2,
{
}

} // verus!
