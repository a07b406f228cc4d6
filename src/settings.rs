//! Tuning of the engine: batch size, pause between batches, retries of a move.
use vstd::prelude::*;

verus! {

pub const DEFAULT_BATCH_SIZE: usize = 10;

pub const DEFAULT_BATCH_DELAY_MS: u64 = 50;

pub const DEFAULT_MAX_RETRIES: u64 = 3;

pub const DEFAULT_RETRY_BACKOFF_MS: u64 = 100;

/// How the engine paces its work.
pub struct EngineConfig {
    /// Files handled between two pauses.
    pub batch_size: usize,
    /// Length of the pause after each batch, in milliseconds.
    pub batch_delay_ms: u64,
    /// Rounds of the whole fallback chain for one file.
    pub max_retries: u64,
    /// Before round `n` (from 0) the mover waits `n` times this, in milliseconds.
    pub retry_backoff_ms: u64,
}

impl EngineConfig {
    /// Batches are not empty, a move gets at least one round, and the longest
    /// wait fits in a `u64`.
    pub open spec fn wf(&self) -> bool {
        &&& self.batch_size >= 1
        &&& self.max_retries >= 1
        &&& self.max_retries * self.retry_backoff_ms <= u64::MAX
    }

    /// Batches of 10, pauses of 50 ms, 3 rounds with waits of 100 ms per round.
    pub fn standard() -> (r: EngineConfig)
        ensures
            r.batch_size == DEFAULT_BATCH_SIZE,
            r.batch_delay_ms == DEFAULT_BATCH_DELAY_MS,
            r.max_retries == DEFAULT_MAX_RETRIES,
            r.retry_backoff_ms == DEFAULT_RETRY_BACKOFF_MS,
            r.wf(),
    {
        EngineConfig {
            batch_size: DEFAULT_BATCH_SIZE,
            batch_delay_ms: DEFAULT_BATCH_DELAY_MS,
            max_retries: DEFAULT_MAX_RETRIES,
            retry_backoff_ms: DEFAULT_RETRY_BACKOFF_MS,
        }
    }
}

} // verus!
