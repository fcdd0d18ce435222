//! Bundle assembly: turns a packing plan into an ordered group of signed
//! transactions targeting one future block. The surrounding binary estimates
//! gas and signs each planned entry through the chain client and feeds the
//! outcome in, in plan order; a [`Bundle`] can only come out of a complete
//! assembly, so a failed estimation or signature aborts the build before
//! anything is submittable.

use vstd::prelude::*;

use crate::errors::ClientError;

verus! {

/// An ordered group of signed transactions plus its target-block metadata.
/// Single-use: submitted for one block, then discarded and rebuilt.
///
/// The only way to obtain one is [`BundleAssembly::finish`], which demands a
/// complete assembly: a partially signed plan can never be submitted.
#[derive(Debug)]
pub struct Bundle {
    txs: Vec<Vec<u8>>,
    target_block: u64,
    simulation_block: u64,
    simulation_timestamp: u64,
}

impl Bundle {
    /// The wire-ready signed transactions, in plan order.
    pub closed spec fn spec_txs(&self) -> Seq<Vec<u8>> {
        self.txs@
    }

    pub closed spec fn spec_target_block(&self) -> u64 {
        self.target_block
    }

    pub closed spec fn spec_simulation_block(&self) -> u64 {
        self.simulation_block
    }

    pub closed spec fn spec_simulation_timestamp(&self) -> u64 {
        self.simulation_timestamp
    }

    /// Points the bundle at the block after the one just observed: it is
    /// submitted for inclusion in `current_block + 1` and simulated against
    /// `current_block` at timestamp zero.
    pub fn set_target(&mut self, current_block: u64)
        requires
            current_block < u64::MAX,
        ensures
            final(self).spec_txs() == old(self).spec_txs(),
            final(self).spec_target_block() == current_block + 1,
            final(self).spec_simulation_block() == current_block,
            final(self).spec_simulation_timestamp() == 0,
    {
        self.target_block = current_block + 1;
        self.simulation_block = current_block;
        self.simulation_timestamp = 0;
    }

    pub fn txs(&self) -> (r: &Vec<Vec<u8>>)
        ensures
            r@ == self.spec_txs(),
    {
        &self.txs
    }

    pub fn target_block(&self) -> (r: u64)
        ensures
            r == self.spec_target_block(),
    {
        self.target_block
    }

    pub fn simulation_block(&self) -> (r: u64)
        ensures
            r == self.spec_simulation_block(),
    {
        self.simulation_block
    }

    pub fn simulation_timestamp(&self) -> (r: u64)
        ensures
            r == self.spec_simulation_timestamp(),
    {
        self.simulation_timestamp
    }
}

/// An in-progress bundle build: the number of transactions the plan calls
/// for, and the ones signed so far, in plan order.
#[derive(Debug)]
pub struct BundleAssembly {
    planned: usize,
    txs: Vec<Vec<u8>>,
}

impl BundleAssembly {
    /// How many transactions the plan calls for.
    pub closed spec fn spec_planned(&self) -> int {
        self.planned as int
    }

    /// The signed transactions accepted so far, in plan order.
    pub closed spec fn spec_signed(&self) -> Seq<Vec<u8>> {
        self.txs@
    }

    /// Every planned entry has been signed.
    pub open spec fn complete(&self) -> bool {
        self.spec_signed().len() == self.spec_planned()
    }

    /// Starts an assembly for a plan of `planned` entries.
    pub fn new(planned: usize) -> (s: Self)
        ensures
            s.spec_planned() == planned,
            s.spec_signed() =~= Seq::<Vec<u8>>::empty(),
    {
        BundleAssembly { planned, txs: Vec::new() }
    }

    pub fn is_complete(&self) -> (r: bool)
        ensures
            r == self.complete(),
    {
        self.txs.len() == self.planned
    }

    /// Feeds in the outcome of building and signing the next planned entry.
    /// A signed transaction is appended in order; a factory failure leaves
    /// the assembly untouched and propagates, aborting the build — nothing
    /// half-made can reach a relay.
    pub fn apply_signed(&mut self, outcome: Result<Vec<u8>, ClientError>) -> (r: Result<
        (),
        ClientError,
    >)
        requires
            old(self).spec_signed().len() < old(self).spec_planned(),
        ensures
            final(self).spec_planned() == old(self).spec_planned(),
            r is Ok <==> outcome is Ok,
            outcome matches Ok(tx) ==> final(self).spec_signed() == old(self).spec_signed().push(
                tx,
            ),
            outcome matches Err(e) ==> r == Err::<(), ClientError>(e) && *final(self) == *old(
                self,
            ),
    {
        match outcome {
            Ok(tx) => {
                self.txs.push(tx);
                Ok(())
            },
            Err(e) => Err(e),
        }
    }

    /// Seals a complete assembly into a bundle. The target-block metadata
    /// starts out zeroed; [`Bundle::set_target`] points it at a real block
    /// right before each submission.
    pub fn finish(self) -> (b: Bundle)
        requires
            self.complete(),
        ensures
            b.spec_txs() == self.spec_signed(),
            b.spec_target_block() == 0,
            b.spec_simulation_block() == 0,
            b.spec_simulation_timestamp() == 0,
    {
        Bundle { txs: self.txs, target_block: 0, simulation_block: 0, simulation_timestamp: 0 }
    }
}

} // verus!
