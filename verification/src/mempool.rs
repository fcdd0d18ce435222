//! Mempool fan-out: the simpler submission path that broadcasts N
//! transactions directly to the public pool and awaits their receipts. The
//! nonce range is reserved up front in one go; each broadcast/receipt pair is
//! independent, so one dropped transaction never cancels its siblings — it is
//! simply absent from the receipt log.

use vstd::prelude::*;

use crate::planner::PlanEntry;

verus! {

/// One line of the per-transaction receipt log for the mempool path.
#[derive(Clone, Debug, PartialEq, Eq)]
pub struct TxnRecord {
    pub gas_price: u128,
    pub timestamp: String,
    pub block_number: u64,
    pub status: u64,
}

/// The fan-out plan: `count` transactions of the same payload size, with a
/// contiguous strictly increasing nonce range reserved from `start_nonce` —
/// computed once, never re-fetched per transaction.
pub fn fanout_plan(count: usize, calldata_bytes: usize, start_nonce: u64) -> (r: Vec<PlanEntry>)
    requires
        start_nonce + count <= u64::MAX,
    ensures
        r@.len() == count,
        forall|i: int|
            0 <= i < count ==> r@[i] == (PlanEntry {
                size: calldata_bytes,
                nonce: (start_nonce + i) as u64,
            }),
{
    let mut plan: Vec<PlanEntry> = Vec::new();
    let mut i: usize = 0;
    while i < count
        invariant
            i <= count,
            start_nonce + count <= u64::MAX,
            plan@.len() == i,
            forall|j: int|
                0 <= j < i ==> plan@[j] == (PlanEntry {
                    size: calldata_bytes,
                    nonce: (start_nonce + j) as u64,
                }),
        decreases count - i,
    {
        plan.push(PlanEntry { size: calldata_bytes, nonce: start_nonce + (i as u64) });
        i = i + 1;
    }
    plan
}

/// The receipts that actually arrived, in broadcast order: `None` entries —
/// transactions that never landed — are dropped, everything else is kept.
pub open spec fn some_values(s: Seq<Option<TxnRecord>>) -> Seq<TxnRecord>
    decreases s.len(),
{
    if s.len() == 0 {
        Seq::empty()
    } else {
        let rest = some_values(s.drop_last());
        match s.last() {
            Some(v) => rest.push(v),
            None => rest,
        }
    }
}

/// Appending one awaited outcome extends the kept receipts exactly when it
/// carries a receipt.
pub proof fn lemma_some_values_push(s: Seq<Option<TxnRecord>>, x: Option<TxnRecord>)
    ensures
        some_values(s.push(x)) == match x {
            Some(v) => some_values(s).push(v),
            None => some_values(s),
        },
{
    assert(s.push(x).drop_last() =~= s);
}

/// Collects the receipts that resolved, in order, dropping the transactions
/// that never landed. A missing receipt affects only its own entry: the
/// result still carries every sibling that did land.
pub fn landed_records(receipts: Vec<Option<TxnRecord>>) -> (r: Vec<TxnRecord>)
    ensures
        r@ == some_values(receipts@),
{
    let ghost orig = receipts@;
    let ghost mut done = Seq::<Option<TxnRecord>>::empty();
    let mut pending = receipts;
    let mut out: Vec<TxnRecord> = Vec::new();
    proof {
        assert(done + pending@ =~= orig);
    }
    while pending.len() > 0
        invariant
            done + pending@ == orig,
            out@ == some_values(done),
        decreases pending@.len(),
    {
        let x = pending.remove(0);
        proof {
            lemma_some_values_push(done, x);
            assert(done.push(x) + pending@ =~= orig);
            done = done.push(x);
        }
        match x {
            Some(record) => {
                out.push(record);
            },
            None => {},
        }
    }
    proof {
        assert(done =~= orig);
    }
    out
}

} // verus!
