//! Acquiring a connection to the store: the decisions between the attempts,
//! and the counters and gauges of the pool.
//!
//! The attempts themselves (asking the pool, pinging the connection,
//! sleeping) are the caller's. After each attempt the caller reports how it
//! went and is told what to do next.

use vstd::prelude::*;
use crate::retry::{after_failures, doubled, Backoff, INITIAL_BACKOFF_MS, MAX_RETRIES};
use crate::text::same_text;

verus! {

/// The time between two health checks, in milliseconds.
pub const HEALTH_CHECK_INTERVAL_MS: u64 = 30000;

/// The most connections that the pool holds.
pub const POOL_SIZE: usize = 32;

/// How long the pool waits for a free connection, in seconds.
pub const POOL_WAIT_SECS: u64 = 2;

/// How long the pool waits for a new connection, in seconds.
pub const POOL_CREATE_SECS: u64 = 2;

/// How long the pool waits for a connection to be recycled, in seconds.
pub const POOL_RECYCLE_SECS: u64 = 5;

/// How long a pipeline of commands may take, in seconds.
pub const PIPELINE_TIMEOUT_SECS: u64 = 5;

/// The address of the store where none is configured.
pub const DEFAULT_REDIS_URL: &'static str = "redis://127.0.0.1:6379";

/// How one attempt went.
pub enum Attempt {
    /// The pool gave a connection and it answered the ping.
    Connected,
    /// The pool gave a connection that did not answer the ping.
    PingFailed,
    /// The pool gave no connection, for this reason.
    PoolFailed(String),
}

/// What to do after an attempt.
pub enum Decision {
    /// Hand the connection to the caller.
    Use,
    /// Wait this many milliseconds, then try again.
    Retry(u64),
    /// Give up: the store is unavailable, with this message.
    Unavailable(String),
}

/// Counters of the pool, each wrapping to zero past the largest value, and
/// the gauges of the last health check.
pub struct PoolMetrics {
    pub successes: u64,
    pub failures: u64,
    pub health_check_failures: u64,
    pub size: u64,
    pub available: u64,
}

/// One acquisition in progress.
pub struct Acquisition {
    pub backoff: Backoff,
}

/// A counter's value after one more event.
pub open spec fn counted(n: u64) -> u64 {
    if n == u64::MAX {
        0
    } else {
        (n + 1) as u64
    }
}

/// The message with which an acquisition gives up.
pub open spec fn unavailable_message(attempt: Attempt) -> Seq<char> {
    match attempt {
        Attempt::PoolFailed(reason) => "Failed to get Redis connection after retries: "@ + reason@,
        _ => "Failed to get Redis connection after retries: connection check failed"@,
    }
}

fn count(n: u64) -> (m: u64)
    ensures
        m == counted(n),
{
    if n == u64::MAX {
        0
    } else {
        n + 1
    }
}

impl PoolMetrics {
    /// Counters and gauges at zero.
    pub fn new() -> (m: PoolMetrics)
        ensures
            m.successes == 0,
            m.failures == 0,
            m.health_check_failures == 0,
            m.size == 0,
            m.available == 0,
    {
        PoolMetrics { successes: 0, failures: 0, health_check_failures: 0, size: 0, available: 0 }
    }

    /// Takes in a health check: a failed one is counted, and the gauges are
    /// set to what the pool reports, whether the check failed or not.
    pub fn record_health(&mut self, healthy: bool, size: u64, available: u64)
        ensures
            final(self).health_check_failures == if healthy {
                old(self).health_check_failures
            } else {
                counted(old(self).health_check_failures)
            },
            final(self).size == size,
            final(self).available == available,
            final(self).successes == old(self).successes,
            final(self).failures == old(self).failures,
    {
        if !healthy {
            self.health_check_failures = count(self.health_check_failures);
        }
        self.size = size;
        self.available = available;
    }
}

/// Whether the answer to a ping shows a healthy connection.
pub fn health_check(response: &str) -> (healthy: bool)
    ensures
        healthy == (response@ == "PONG"@),
{
    same_text(response, "PONG")
}

impl Acquisition {
    /// An acquisition before its first attempt: three retries, the first
    /// after a tenth of a second.
    pub fn new() -> (a: Acquisition)
        ensures
            a.backoff == after_failures(MAX_RETRIES, INITIAL_BACKOFF_MS, 0),
    {
        Acquisition { backoff: Backoff::standard() }
    }

    /// Takes in how an attempt went and says what to do next. A success is
    /// counted and ends the acquisition. A failure of either kind is
    /// counted; it costs one retry and doubles the wait, and with no retry
    /// left it ends the acquisition as unavailable.
    pub fn step(&mut self, attempt: &Attempt, metrics: &mut PoolMetrics) -> (decision: Decision)
        ensures
            final(metrics).health_check_failures == old(metrics).health_check_failures,
            final(metrics).size == old(metrics).size,
            final(metrics).available == old(metrics).available,
            *attempt is Connected ==> {
                &&& decision is Use
                &&& *final(self) == *old(self)
                &&& final(metrics).successes == counted(old(metrics).successes)
                &&& final(metrics).failures == old(metrics).failures
            },
            !(*attempt is Connected) ==> {
                &&& final(metrics).successes == old(metrics).successes
                &&& final(metrics).failures == counted(old(metrics).failures)
            },
            !(*attempt is Connected) && old(self).backoff.retries_left == 0 ==> {
                &&& decision is Unavailable
                &&& decision->Unavailable_0@ == unavailable_message(*attempt)
                &&& *final(self) == *old(self)
            },
            !(*attempt is Connected) && old(self).backoff.retries_left > 0 ==> {
                &&& decision == Decision::Retry(old(self).backoff.delay_ms)
                &&& final(self).backoff.retries_left == old(self).backoff.retries_left - 1
                &&& final(self).backoff.delay_ms == doubled(old(self).backoff.delay_ms)
            },
    {
        match attempt {
            Attempt::Connected => {
                metrics.successes = count(metrics.successes);
                Decision::Use
            },
            _ => {
                metrics.failures = count(metrics.failures);
                match self.backoff.next() {
                    Some(wait) => Decision::Retry(wait),
                    None => {
                        let message = match attempt {
                            Attempt::PoolFailed(reason) => {
                                let mut message = String::from_str(
                                    "Failed to get Redis connection after retries: ",
                                );
                                message.append(reason.as_str());
                                message
                            },
                            _ => String::from_str(
                                "Failed to get Redis connection after retries: connection check failed",
                            ),
                        };
                        Decision::Unavailable(message)
                    },
                }
            },
        }
    }
}

} // verus!
