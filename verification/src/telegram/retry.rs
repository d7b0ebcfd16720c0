//! Whether a call of the chat platform is made again, and after how long.
//! A throttled call waits as long as the platform asks and is always made
//! again; a call that failed in passing is made again after a growing delay,
//! a bounded number of times; a call that the platform rejected is not made
//! again.

use vstd::prelude::*;

verus! {

/// How a call ended.
#[derive(Debug, Clone, Copy, PartialEq, Eq, Structural)]
pub enum Outcome {
    /// The platform answered with a result.
    Success,
    /// The platform asks to wait before the call is made again.
    Throttled { retry_after_secs: u64 },
    /// The call failed in passing: the transport failed, the server failed,
    /// or the answer could not be read.
    Transient,
    /// The platform rejected the call.
    Rejected,
}

/// How a call with an HTTP status ended. `parsed` tells whether the answer
/// could be read.
pub open spec fn spec_classify(status: u16, retry_after_secs: Option<u64>, parsed: bool) -> Outcome {
    if status == 429 {
        match retry_after_secs {
            Some(secs) => Outcome::Throttled { retry_after_secs: secs },
            None => Outcome::Transient,
        }
    } else if 400 <= status < 500 {
        Outcome::Rejected
    } else if 200 <= status < 300 && parsed {
        Outcome::Success
    } else {
        Outcome::Transient
    }
}

/// Tells how a call with an HTTP status ended.
pub fn classify(status: u16, retry_after_secs: Option<u64>, parsed: bool) -> (r: Outcome)
    ensures
        r == spec_classify(status, retry_after_secs, parsed),
{
    if status == 429 {
        match retry_after_secs {
            Some(secs) => Outcome::Throttled { retry_after_secs: secs },
            None => Outcome::Transient,
        }
    } else if 400 <= status && status < 500 {
        Outcome::Rejected
    } else if 200 <= status && status < 300 && parsed {
        Outcome::Success
    } else {
        Outcome::Transient
    }
}

/// How often and how long a call that failed in passing is waited for.
#[derive(Debug, Clone, Copy, PartialEq, Eq, Structural)]
pub struct RetryPolicy {
    /// How often a call is made again after it failed in passing.
    pub max_retries: u32,
    /// Delay before the first retry, in milliseconds.
    pub base_delay_millis: u64,
    /// Longest delay, in milliseconds, before jitter.
    pub max_delay_millis: u64,
}

/// What a call has used up.
#[derive(Debug, Clone, Copy, PartialEq, Eq, Structural)]
pub struct RetryState {
    /// How often the call was made again after it failed in passing.
    pub retries: u32,
}

/// What is to be done after a call ended.
#[derive(Debug, Clone, Copy, PartialEq, Eq, Structural)]
pub enum Decision {
    /// Hand the result to the caller.
    Return,
    /// Hand the error to the caller.
    Surface,
    /// Wait, then make the call again.
    Wait { millis: u64 },
}

/// Twice a delay, up to a longest one.
pub open spec fn doubled(delay: u64, max: u64) -> u64 {
    if delay > max / 2 {
        max
    } else {
        (delay * 2) as u64
    }
}

/// The delay before a retry, given how many retries there were before: the
/// base delay, twice as long each time, up to the longest delay.
pub open spec fn backoff(policy: RetryPolicy, retries: nat) -> u64
    decreases retries,
{
    if retries == 0 {
        if policy.base_delay_millis > policy.max_delay_millis {
            policy.max_delay_millis
        } else {
            policy.base_delay_millis
        }
    } else {
        doubled(backoff(policy, (retries - 1) as nat), policy.max_delay_millis)
    }
}

/// A delay with jitter on top: at most as much again, and no more than the
/// number type holds.
pub open spec fn jittered(delay: u64, jitter: u64) -> u64 {
    if delay == u64::MAX {
        u64::MAX
    } else {
        let extra = jitter % ((delay + 1) as u64);
        if delay + extra > u64::MAX {
            u64::MAX
        } else {
            (delay + extra) as u64
        }
    }
}

/// Milliseconds of a number of seconds, as far as the number type reaches.
pub open spec fn millis_of(secs: u64) -> u64 {
    if secs > u64::MAX / 1000 {
        u64::MAX
    } else {
        (secs * 1000) as u64
    }
}

/// What is to be done after a call ended, and what the call has used up
/// then. `jitter` is any number: it spreads the delay of a retry.
pub open spec fn spec_decide(
    policy: RetryPolicy,
    state: RetryState,
    outcome: Outcome,
    jitter: u64,
) -> (RetryState, Decision) {
    match outcome {
        Outcome::Success => (state, Decision::Return),
        Outcome::Throttled { retry_after_secs } => (
            state,
            Decision::Wait { millis: millis_of(retry_after_secs) },
        ),
        Outcome::Rejected => (state, Decision::Surface),
        Outcome::Transient => if state.retries < policy.max_retries {
            (
                RetryState { retries: (state.retries + 1) as u32 },
                Decision::Wait {
                    millis: jittered(backoff(policy, state.retries as nat), jitter),
                },
            )
        } else {
            (state, Decision::Surface)
        },
    }
}

/// Computes the delay before a retry.
pub fn backoff_millis(policy: RetryPolicy, retries: u32) -> (r: u64)
    ensures
        r == backoff(policy, retries as nat),
{
    let mut delay: u64 = if policy.base_delay_millis > policy.max_delay_millis {
        policy.max_delay_millis
    } else {
        policy.base_delay_millis
    };
    let mut k: u32 = 0;
    while k < retries
        invariant
            k <= retries,
            delay == backoff(policy, k as nat),
        decreases retries - k,
    {
        delay = if delay > policy.max_delay_millis / 2 {
            policy.max_delay_millis
        } else {
            delay * 2
        };
        k += 1;
    }
    delay
}

impl RetryState {
    /// The state of a call that was not made yet.
    pub fn new() -> (r: RetryState)
        ensures
            r.retries == 0,
    {
        RetryState { retries: 0 }
    }
}

/// Decides what is to be done after a call ended.
pub fn decide(policy: RetryPolicy, state: RetryState, outcome: Outcome, jitter: u64) -> (r: (
    RetryState,
    Decision,
))
    ensures
        r == spec_decide(policy, state, outcome, jitter),
{
    match outcome {
        Outcome::Success => (state, Decision::Return),
        Outcome::Throttled { retry_after_secs } => {
            let millis = if retry_after_secs > u64::MAX / 1000 {
                u64::MAX
            } else {
                retry_after_secs * 1000
            };
            (state, Decision::Wait { millis })
        },
        Outcome::Rejected => (state, Decision::Surface),
        Outcome::Transient => {
            if state.retries < policy.max_retries {
                let delay = backoff_millis(policy, state.retries);
                let millis = if delay == u64::MAX {
                    u64::MAX
                } else {
                    let extra = jitter % (delay + 1);
                    if extra > u64::MAX - delay {
                        u64::MAX
                    } else {
                        delay + extra
                    }
                };
                (RetryState { retries: state.retries + 1 }, Decision::Wait { millis })
            } else {
                (state, Decision::Surface)
            }
        },
    }
}

/// Throttling does not use up retries: the call waits as long as the
/// platform asks, whatever it has used up, and has used up no more then.
pub proof fn law_throttling_is_free(
    policy: RetryPolicy,
    state: RetryState,
    retry_after_secs: u64,
    jitter: u64,
)
    ensures
        spec_decide(policy, state, Outcome::Throttled { retry_after_secs }, jitter) == (
            state,
            Decision::Wait { millis: millis_of(retry_after_secs) },
        ),
{
}

/// A call that keeps failing in passing is given up after the retries of
/// the policy, and every delay on the way is at most twice the longest one.
pub proof fn law_retries_are_bounded(policy: RetryPolicy, state: RetryState, jitter: u64)
    ensures
        state.retries >= policy.max_retries ==> spec_decide(
            policy,
            state,
            Outcome::Transient,
            jitter,
        ).1 == Decision::Surface,
        state.retries < policy.max_retries ==> spec_decide(
            policy,
            state,
            Outcome::Transient,
            jitter,
        ).0.retries == state.retries + 1,
        backoff(policy, state.retries as nat) <= policy.max_delay_millis,
    decreases state.retries,
{
    if state.retries > 0 {
        law_retries_are_bounded(
            policy,
            RetryState { retries: (state.retries - 1) as u32 },
            jitter,
        );
    }
}

} // verus!
