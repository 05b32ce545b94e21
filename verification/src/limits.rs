//! Per-run resource limits.
use vstd::math::{max, min};
use vstd::prelude::*;

verus! {

/// The time between two epochs, in milliseconds. The host advances the epoch once per period.
pub const EPOCH_MS: u64 = 10;

/// The number of epochs that a run with the given deadline is granted. The first of them may end
/// at any time after the start, so that all but the first must cover the deadline.
pub open spec fn epochs(timeout_ms: int) -> int {
    (timeout_ms + EPOCH_MS - 1) / (EPOCH_MS as int) + 1
}

/// Computes the number of epochs that a run with the given deadline is granted.
pub fn epoch_deadline(timeout_ms: u64) -> (r: u64)
    ensures
        r == epochs(timeout_ms as int),
        (r - 1) * EPOCH_MS >= timeout_ms,
        (r - 2) * EPOCH_MS < timeout_ms,
{
    let full: u64 = timeout_ms / EPOCH_MS;
    if timeout_ms % EPOCH_MS == 0 {
        full + 1
    } else {
        full + 2
    }
}

/// Per-run resource limits.
#[derive(Clone, Copy)]
pub struct Limits {
    pub default_timeout_ms: u64,
    pub max_timeout_ms: u64,
    /// Linear-memory cap for the guest, in bytes.
    pub memory_bytes: usize,
    /// Max bytes captured from stdout/stderr each (excess is truncated).
    pub output_bytes: usize,
}

impl Default for Limits {
    fn default() -> (r: Self)
        ensures
            r.default_timeout_ms == 5_000,
            r.max_timeout_ms == 30_000,
            r.memory_bytes == 256 * 1024 * 1024,
            r.output_bytes == 1024 * 1024,
    {
        Limits {
            default_timeout_ms: 5_000,
            max_timeout_ms: 30_000,
            memory_bytes: 256 * 1024 * 1024,
            output_bytes: 1024 * 1024,
        }
    }
}

impl Limits {
    /// The wall-clock deadline of a run, in milliseconds: what was asked for, or the default,
    /// brought down to the maximum and up to one.
    pub open spec fn deadline(self, requested: Option<u64>) -> int {
        let wanted = match requested {
            Some(ms) => ms,
            None => self.default_timeout_ms,
        };
        let capped = if wanted <= self.max_timeout_ms {
            wanted
        } else {
            self.max_timeout_ms
        };
        if capped >= 1 {
            capped as int
        } else {
            1
        }
    }

    /// Computes the wall-clock deadline of a run, in milliseconds.
    pub fn timeout(&self, requested: Option<u64>) -> (r: u64)
        ensures
            r == self.deadline(requested),
            r == max(
                1,
                min(
                    self.max_timeout_ms as int,
                    match requested {
                        Some(ms) => ms as int,
                        None => self.default_timeout_ms as int,
                    },
                ),
            ),
    {
        let mut timeout: u64 = match requested {
            Some(ms) => ms,
            None => self.default_timeout_ms,
        };
        if timeout > self.max_timeout_ms {
            timeout = self.max_timeout_ms;
        }
        if timeout < 1 {
            timeout = 1;
        }
        timeout
    }
}

} // verus!
