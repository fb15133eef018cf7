//! How often and how soon a failed fetch of the key set is tried again.

use vstd::prelude::*;

verus! {

/// What to do after a fetch of the key set failed.
#[derive(Clone, Copy, Debug, PartialEq, Eq, Structural)]
pub enum RetryAdvice {
    /// Try again after this many milliseconds.
    After(u64),
    /// Stop: the failure goes out as the failure of the request.
    GiveUp,
}

/// A bound on the attempts to fetch the key set, and the pause before the
/// second attempt. Each further pause is twice the one before.
#[derive(Clone, Copy, Debug, PartialEq, Eq, Structural)]
pub struct RetryPolicy {
    /// How many attempts are made at most, the first one included.
    pub max_attempts: u32,
    /// The pause after the first failure, in milliseconds.
    pub first_delay_ms: u64,
}

/// `first` doubled `times` times.
pub open spec fn doubled(first: nat, times: nat) -> nat
    decreases times,
{
    if times == 0 {
        first
    } else {
        2 * doubled(first, (times - 1) as nat)
    }
}

/// The pause after the given number of failures, as far as 64 bits hold it.
pub open spec fn pause_after(policy: RetryPolicy, failures: nat) -> nat {
    let exact = doubled(policy.first_delay_ms as nat, (failures - 1) as nat);
    if exact > u64::MAX {
        u64::MAX as nat
    } else {
        exact
    }
}

/// The advice after the given number of failed attempts.
pub open spec fn advice_after(policy: RetryPolicy, failures: nat) -> RetryAdvice {
    if failures == 0 || failures >= policy.max_attempts {
        RetryAdvice::GiveUp
    } else {
        RetryAdvice::After(pause_after(policy, failures) as u64)
    }
}

/// Doubling never makes a pause shorter.
pub proof fn lemma_doubled_grows(first: nat, times: nat)
    ensures
        doubled(first, times) <= doubled(first, times + 1),
{
}

impl RetryPolicy {
    /// Three attempts, with pauses of 200 and 400 milliseconds between them.
    pub fn standard() -> (out: RetryPolicy)
        ensures
            out == (RetryPolicy { max_attempts: 3, first_delay_ms: 200 }),
    {
        RetryPolicy { max_attempts: 3, first_delay_ms: 200 }
    }

    /// Says whether to fetch again after `failures` attempts have failed in
    /// a row, and after what pause. No attempt is advised beyond the bound,
    /// and none before anything has failed.
    pub fn after_failure(&self, failures: u32) -> (out: RetryAdvice)
        ensures
            out == advice_after(*self, failures as nat),
    {
        if failures == 0 || failures >= self.max_attempts {
            return RetryAdvice::GiveUp;
        }
        let mut pause: u64 = self.first_delay_ms;
        let mut done: u32 = 1;
        while done < failures
            invariant
                1 <= done <= failures,
                pause == if doubled(self.first_delay_ms as nat, (done - 1) as nat) > u64::MAX {
                    u64::MAX as nat
                } else {
                    doubled(self.first_delay_ms as nat, (done - 1) as nat)
                },
            decreases failures - done,
        {
            proof {
                lemma_doubled_grows(self.first_delay_ms as nat, (done - 1) as nat);
            }
            pause = if pause > u64::MAX / 2 {
                u64::MAX
            } else {
                pause * 2
            };
            done = done + 1;
        }
        RetryAdvice::After(pause)
    }
}

/// A run of failures ends: once as many attempts have failed as the policy
/// allows, the advice is to give up, and it stays so.
pub proof fn law_retries_are_bounded(policy: RetryPolicy, failures: nat)
    requires
        failures >= policy.max_attempts,
    ensures
        advice_after(policy, failures) == RetryAdvice::GiveUp,
{
}

} // verus!
