//! The retry scheduler's backoff policy.
//!
//! The scheduler wraps one long-lived bridge run. An ended block stream
//! (`SubscriptionFinished`) is expected: the bridge is re-created and
//! re-run at once. Any other failure backs off for `60 * 3^n` seconds,
//! where `n` counts the consecutive failures and starts at one; the
//! count never resets while the process lives.

use vstd::prelude::*;
use crate::bridge::StorageHubError;

verus! {

/// The `n`-th power of three.
pub open spec fn pow3(n: nat) -> nat
    decreases n,
{
    if n == 0 {
        1
    } else {
        3 * pow3((n - 1) as nat)
    }
}

/// Powers of three grow monotonically.
pub proof fn lemma_pow3_monotonic(a: nat, b: nat)
    requires
        a <= b,
    ensures
        pow3(a) <= pow3(b),
    decreases b,
{
    if a < b {
        lemma_pow3_monotonic(a, (b - 1) as nat);
        assert(pow3(b) == 3 * pow3((b - 1) as nat));
    }
}

/// The wait before the `n`-th consecutive retry, in seconds: `60 * 3^n`,
/// held at the integer bound where the formula exceeds it.
pub open spec fn backoff_of(n: nat) -> int {
    if 60 * pow3(n) > u64::MAX {
        u64::MAX as int
    } else {
        60 * pow3(n) as int
    }
}

/// Computes the backoff wait for the `n`-th consecutive failure.
pub fn backoff_seconds(n: u32) -> (r: u64)
    ensures
        r == backoff_of(n as nat),
{
    let mut power: u64 = 1;
    let mut i: u32 = 0;
    while i < n
        invariant
            i <= n,
            power == pow3(i as nat) || (power == u64::MAX && pow3(i as nat) > u64::MAX),
        decreases n - i,
    {
        if power > u64::MAX / 3 {
            proof {
                assert(3 * pow3(i as nat) > u64::MAX);
                lemma_pow3_monotonic((i + 1) as nat, n as nat);
            }
            power = u64::MAX;
            i = n;
        } else {
            power = power * 3;
            i += 1;
        }
    }
    if power > u64::MAX / 60 {
        proof {
            assert(60 * pow3(n as nat) > u64::MAX);
        }
        u64::MAX
    } else {
        proof {
            assert(power == pow3(n as nat));
        }
        60 * power
    }
}

/// What the scheduler does after a bridge run ends.
#[derive(PartialEq, Eq, Structural, Debug)]
pub enum RetryAction {
    /// Re-create and re-run the bridge with zero delay.
    ReconnectNow,
    /// Sleep for the given number of seconds, then re-run.
    Backoff { seconds: u64 },
}

/// The scheduler's state: the count of consecutive failures that were
/// not an ended subscription.
pub struct RetryScheduler {
    n: u32,
}

impl RetryScheduler {
    /// The consecutive-failure count the next backoff is computed from.
    pub closed spec fn failures(self) -> u32 {
        self.n
    }

    /// A scheduler that has seen no failure: its first backoff waits
    /// `60 * 3^1` seconds.
    pub fn new() -> (r: RetryScheduler)
        ensures
            r.failures() == 1,
    {
        RetryScheduler { n: 1 }
    }

    /// Decides how to retry after a bridge run ended with `error`. An
    /// ended subscription reconnects at once and leaves the count
    /// untouched; anything else backs off by the count in force and
    /// raises it, never resetting it.
    pub fn on_run_end(&mut self, error: &StorageHubError) -> (r: RetryAction)
        ensures
            *error == StorageHubError::SubscriptionFinished ==> r == RetryAction::ReconnectNow
                && final(self).failures() == old(self).failures(),
            *error != StorageHubError::SubscriptionFinished ==> r == (RetryAction::Backoff {
                seconds: backoff_of(old(self).failures() as nat) as u64,
            }) && final(self).failures() == if old(self).failures() == u32::MAX {
                u32::MAX
            } else {
                (old(self).failures() + 1) as u32
            },
    {
        match error {
            StorageHubError::SubscriptionFinished => RetryAction::ReconnectNow,
            _ => {
                let seconds = backoff_seconds(self.n);
                if self.n < u32::MAX {
                    self.n = self.n + 1;
                }
                RetryAction::Backoff { seconds }
            },
        }
    }
}

} // verus!
