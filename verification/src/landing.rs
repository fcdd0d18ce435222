//! Landing loop: the block-synchronized retry state machine. Each cycle the
//! surrounding binary awaits a new block, submits the current bundle, and
//! reports the outcome here; this module owns the landed-block counter, the
//! account nonce, and the append-only attempt log, and decides when the run
//! is over.

use vstd::prelude::*;

verus! {

/// Static configuration of one landing run.
#[derive(Clone, Copy, Debug)]
pub struct LandingConfig {
    /// Target fraction of the block's data capacity, in percent (1..=100).
    pub fill_pct: u8,
    /// Per-transaction calldata budget, in kilobytes.
    pub chunk_size_kb: usize,
    /// Flat fee offered above the base gas price to incentivize inclusion.
    pub tip_wei: u64,
    /// The run ends once this many bundles have landed.
    pub block_budget: u64,
    /// Optional cap on the total number of attempts, landed or not: a guard
    /// against unbounded resource use should the relay only ever reject.
    pub max_attempts: Option<u64>,
}

/// One line of the append-only audit log: a single landing attempt, whether
/// it succeeded, and the configuration it ran under.
#[derive(Clone, Debug, PartialEq, Eq)]
pub struct AttemptRecord {
    pub tip_wei: u64,
    pub fill_pct: u8,
    pub success: bool,
    pub timestamp: String,
    pub chunk_size_kb: usize,
    pub block_number: u64,
}

/// Number of successful attempts recorded in a log.
pub open spec fn successes(log: Seq<AttemptRecord>) -> int
    decreases log.len(),
{
    if log.len() == 0 {
        0
    } else {
        successes(log.drop_last()) + if log.last().success {
            1int
        } else {
            0int
        }
    }
}

/// Appending one record raises the success count by one exactly when the
/// record reports a success.
pub proof fn lemma_successes_push(log: Seq<AttemptRecord>, r: AttemptRecord)
    ensures
        successes(log.push(r)) == successes(log) + if r.success {
            1int
        } else {
            0int
        },
{
    assert(log.push(r).drop_last() =~= log);
}

/// The landed counter never decreases, so once the budget is reached it
/// stays reached: a loop that consults [`LandingLoop::should_submit`] before
/// every submission never submits past its budget, whatever the later
/// outcomes are.
pub proof fn lemma_budget_stays_reached(
    before: LandingLoop,
    after: LandingLoop,
    config: LandingConfig,
    success: bool,
)
    requires
        after.landed == before.landed + if success {
            1int
        } else {
            0int
        },
        before.landed >= config.block_budget,
    ensures
        after.landed >= config.block_budget,
{
}

/// Mutable state of the landing loop: how many bundles have landed, the
/// account nonce the next plan must start from, and the attempt log.
///
/// The nonce is never incremented locally: a bundle submitted through the
/// relay may or may not consume nonces depending on inclusion, so the only
/// safe source of truth is the value re-queried from the chain after every
/// attempt, which the caller hands to [`LandingLoop::record_attempt`].
#[derive(Debug)]
pub struct LandingLoop {
    pub landed: u64,
    pub nonce: u64,
    pub attempts: Vec<AttemptRecord>,
}

impl LandingLoop {
    /// The landed counter agrees with the attempt log.
    pub open spec fn wf(self) -> bool {
        self.landed == successes(self.attempts@)
    }

    /// A fresh loop: nothing landed, empty log, plans start at `start_nonce`.
    pub fn new(start_nonce: u64) -> (s: Self)
        ensures
            s.wf(),
            s.landed == 0,
            s.nonce == start_nonce,
            s.attempts@ =~= Seq::<AttemptRecord>::empty(),
    {
        LandingLoop { landed: 0, nonce: start_nonce, attempts: Vec::new() }
    }

    /// Whether another bundle may be submitted: true exactly while fewer
    /// bundles have landed than the budget allows and the attempt cap, if
    /// one is configured, has not been exhausted. Once the budget is reached
    /// this stays false, so the loop never submits past it.
    pub fn should_submit(&self, config: &LandingConfig) -> (r: bool)
        ensures
            r == (self.landed < config.block_budget && match config.max_attempts {
                Some(cap) => self.attempts@.len() < cap,
                None => true,
            }),
    {
        self.landed < config.block_budget && match config.max_attempts {
            Some(cap) => (self.attempts.len() as u64) < cap,
            None => true,
        }
    }

    /// Records the outcome of one submission: appends the audit record,
    /// counts a landed block on success, and adopts the nonce freshly
    /// re-queried from the chain for the next plan.
    pub fn record_attempt(
        &mut self,
        config: &LandingConfig,
        success: bool,
        block_number: u64,
        timestamp: String,
        refreshed_nonce: u64,
    )
        requires
            old(self).wf(),
            old(self).landed < u64::MAX,
        ensures
            final(self).wf(),
            final(self).attempts@ == old(self).attempts@.push(
                AttemptRecord {
                    tip_wei: config.tip_wei,
                    fill_pct: config.fill_pct,
                    success,
                    timestamp,
                    chunk_size_kb: config.chunk_size_kb,
                    block_number,
                },
            ),
            final(self).landed == old(self).landed + if success {
                1u64
            } else {
                0u64
            },
            final(self).nonce == refreshed_nonce,
    {
        let record = AttemptRecord {
            tip_wei: config.tip_wei,
            fill_pct: config.fill_pct,
            success,
            timestamp,
            chunk_size_kb: config.chunk_size_kb,
            block_number,
        };
        proof {
            lemma_successes_push(self.attempts@, record);
        }
        self.attempts.push(record);
        if success {
            self.landed = self.landed + 1;
        }
        self.nonce = refreshed_nonce;
    }
}

} // verus!
