//! Retrying with exponential backoff and a bounded number of attempts.
//!
//! The operation and the waiting are the caller's. After each failure that
//! may be retried the caller asks [`Backoff::next`] whether to try again and
//! how long to wait first.

use vstd::prelude::*;

verus! {

/// How often an operation is tried again after its first attempt.
pub const MAX_RETRIES: u32 = 3;

/// The wait before the first retry, in milliseconds; each further wait is
/// twice the one before.
pub const INITIAL_BACKOFF_MS: u64 = 100;

/// The retries that are left and the wait before the next one.
#[derive(Debug, Clone, Copy, PartialEq, Eq, Structural)]
pub struct Backoff {
    pub retries_left: u32,
    pub delay_ms: u64,
}

/// Twice a wait, or the longest wait there is.
pub open spec fn doubled(ms: u64) -> u64 {
    if ms > u64::MAX / 2 {
        u64::MAX
    } else {
        (2 * ms) as u64
    }
}

/// The wait before retry number `k`, counted from zero, where the first wait
/// is `first`.
pub open spec fn delay_before(first: u64, k: nat) -> u64
    decreases k,
{
    if k == 0 {
        first
    } else {
        doubled(delay_before(first, (k - 1) as nat))
    }
}

/// The state after `failures` retried failures of an operation that started
/// with `retries` retries and a first wait of `first`.
pub open spec fn after_failures(retries: u32, first: u64, failures: nat) -> Backoff {
    Backoff { retries_left: (retries - failures) as u32, delay_ms: delay_before(first, failures) }
}

impl Backoff {
    /// The state before the first attempt.
    pub fn new(retries: u32, first_delay_ms: u64) -> (b: Backoff)
        ensures
            b == after_failures(retries, first_delay_ms, 0),
    {
        Backoff { retries_left: retries, delay_ms: first_delay_ms }
    }

    /// Three retries, the first after a tenth of a second.
    pub fn standard() -> (b: Backoff)
        ensures
            b == after_failures(MAX_RETRIES, INITIAL_BACKOFF_MS, 0),
    {
        Backoff::new(MAX_RETRIES, INITIAL_BACKOFF_MS)
    }

    /// Takes in a failure. With a retry left it uses one up, doubles the
    /// wait, and hands back the wait before the next attempt; with none left
    /// it hands back nothing and changes nothing.
    pub fn next(&mut self) -> (wait: Option<u64>)
        ensures
            old(self).retries_left > 0 ==> wait == Some(old(self).delay_ms) && final(self).retries_left == old(
                self,
            ).retries_left - 1 && final(self).delay_ms == doubled(old(self).delay_ms),
            old(self).retries_left == 0 ==> wait is None && *final(self) == *old(self),
    {
        if self.retries_left == 0 {
            None
        } else {
            let wait: u64 = self.delay_ms;
            self.retries_left = self.retries_left - 1;
            self.delay_ms = if wait > u64::MAX / 2 {
                u64::MAX
            } else {
                2 * wait
            };
            Some(wait)
        }
    }
}

/// A failure with a retry left leads from the state after `k` failures to
/// the state after `k + 1`, whatever the first wait was: the waits double
/// from one retry to the next, and the retries run out after as many
/// failures as there were retries.
pub proof fn failure_advances(retries: u32, first: u64, k: nat)
    requires
        k < retries,
    ensures
        after_failures(retries, first, k).retries_left > 0,
        after_failures(retries, first, k + 1).retries_left == after_failures(retries, first, k).retries_left - 1,
        after_failures(retries, first, k + 1).delay_ms == doubled(after_failures(retries, first, k).delay_ms),
        after_failures(retries, first, retries as nat).retries_left == 0,
{
    reveal_with_fuel(delay_before, 2);
}

/// The standard waits are 100 ms, 200 ms and 400 ms.
pub proof fn standard_schedule()
    ensures
        delay_before(INITIAL_BACKOFF_MS, 0) == 100,
        delay_before(INITIAL_BACKOFF_MS, 1) == 200,
        delay_before(INITIAL_BACKOFF_MS, 2) == 400,
{
    reveal_with_fuel(delay_before, 4);
}

} // verus!
