use vstd::prelude::*;

verus! {

/// Configuration rejected at startup: these are fatal and never retried.
#[derive(Clone, Copy, Debug, PartialEq, Eq, Structural)]
pub enum ConfigError {
    /// The target fill percentage lies outside 1..=100.
    InvalidFillPct,
    /// The per-transaction chunk budget is too small to leave any room for
    /// payload once the serialization overhead is reserved.
    ChunkTooSmall,
}

/// Failure reported by the chain client while one transaction was being
/// built: either the gas estimator or the signer refused. Both abort the
/// current plan build; neither is retried locally.
#[derive(Clone, Copy, Debug, PartialEq, Eq, Structural)]
pub enum ClientError {
    Estimation,
    Signing,
}

} // verus!
