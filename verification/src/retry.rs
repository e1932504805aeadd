use crate::outcome::AttemptOutcome;
use vstd::arithmetic::power2::{lemma_pow2_strictly_increases, lemma_pow2_unfold, pow2};
use vstd::prelude::*;

verus! {

/// What the retry policy keeps between attempts.
#[derive(Debug, Clone, Copy, PartialEq, Eq, Structural)]
pub struct RetryState {
    /// The failures seen since the last delivered batch. The count stops at
    /// `u16::MAX`, from where on no delay depends on it any more.
    pub consecutive_failures: u16,
}

/// What to do with the outcome of an attempt.
#[derive(Debug)]
pub enum Decision<P> {
    /// Hand the outcome to the stream controller.
    Stop(AttemptOutcome<P>),
    /// Repeat the same poll after this many seconds.
    RetryAfter(u32),
}

/// The rule by which delays are chosen.
#[derive(Debug, Clone, Copy, PartialEq, Eq, Structural)]
pub enum RetryPolicy {
    /// The upstream sets the pace: a rate limit is waited out for as long as
    /// the upstream says, every other retry is immediate.
    UpstreamInformed,
    /// As `UpstreamInformed`, but the attempt that follows a failure waits,
    /// and twice as long after each further failure, up to a cap in seconds.
    ExponentialBackoff {
        /// The longest delay in seconds
        max_delay_cap: u32,
    },
}

/// The delay in seconds after `failures` earlier failures in a row: two to
/// the power of `failures`, and no more than `cap`.
pub open spec fn backoff(cap: u32, failures: u16) -> u32 {
    if pow2(failures as nat) < cap {
        pow2(failures as nat) as u32
    } else {
        cap
    }
}

/// Computes the exponential delay without leaving the range of the machine's
/// integers, however many failures there were.
pub fn backoff_delay(cap: u32, failures: u16) -> (delay: u32)
    ensures
        delay == backoff(cap, failures),
        delay <= cap,
{
    let mut power: u64 = 1;
    let mut doubled: u16 = 0;
    proof {
        assert(pow2(0) == 1) by {
            vstd::arithmetic::power2::lemma2_to64();
        }
    }
    while doubled < failures && power < cap as u64
        invariant
            doubled <= failures,
            power == pow2(doubled as nat),
            power <= 2 * (cap as u64) + 1,
        decreases failures - doubled,
    {
        proof {
            lemma_pow2_unfold((doubled + 1) as nat);
        }
        power = 2 * power;
        doubled = doubled + 1;
    }
    if power < cap as u64 {
        power as u32
    } else {
        proof {
            if doubled < failures {
                lemma_pow2_strictly_increases(doubled as nat, failures as nat);
            }
        }
        cap
    }
}

/// The exponential delay never exceeds its cap, is one second after the
/// first failure where the cap allows it, and does not shrink as failures
/// add up.
pub proof fn backoff_is_bounded_and_grows(cap: u32, fewer: u16, more: u16)
    requires
        fewer <= more,
    ensures
        backoff(cap, more) <= cap,
        backoff(cap, fewer) <= backoff(cap, more),
        cap >= 1 ==> backoff(cap, 0) == 1,
{
    assert(pow2(0) == 1) by {
        vstd::arithmetic::power2::lemma2_to64();
    }
    if fewer < more {
        lemma_pow2_strictly_increases(fewer as nat, more as nat);
    }
}

impl RetryState {
    /// The state of a stream that has seen no failure.
    pub fn new() -> (state: RetryState)
        ensures
            state.consecutive_failures == 0,
    {
        RetryState { consecutive_failures: 0 }
    }

    /// The state after `outcome`: a delivered batch clears the count, a rate
    /// limit leaves it, a failure adds one to it.
    pub open spec fn after<P>(self, outcome: AttemptOutcome<P>) -> RetryState {
        match outcome {
            AttemptOutcome::Delivered(_) => RetryState { consecutive_failures: 0 },
            AttemptOutcome::RateLimited(_) => self,
            _ => RetryState {
                consecutive_failures: if self.consecutive_failures < u16::MAX {
                    (self.consecutive_failures + 1) as u16
                } else {
                    u16::MAX
                },
            },
        }
    }

    /// Takes note of `outcome`.
    pub fn record<P>(&mut self, outcome: &AttemptOutcome<P>)
        ensures
            *final(self) == old(self).after(*outcome),
    {
        match outcome {
            AttemptOutcome::Delivered(_) => {
                self.consecutive_failures = 0;
            },
            AttemptOutcome::RateLimited(_) => {},
            _ => {
                if self.consecutive_failures < u16::MAX {
                    self.consecutive_failures = self.consecutive_failures + 1;
                }
            },
        }
    }
}

impl RetryPolicy {
    /// The delay in seconds that this policy puts before the attempt that
    /// follows a failure, where `failures` failures came before that one.
    pub open spec fn spec_failure_delay(&self, failures: u16) -> u32 {
        match self {
            RetryPolicy::UpstreamInformed => 0,
            RetryPolicy::ExponentialBackoff { max_delay_cap } => backoff(*max_delay_cap, failures),
        }
    }

    /// The delay in seconds that this policy puts before the attempt that
    /// follows a failure, where `failures` failures came before that one.
    #[verifier::when_used_as_spec(spec_failure_delay)]
    pub fn failure_delay(&self, failures: u16) -> (delay: u32)
        ensures
            delay == self.spec_failure_delay(failures),
    {
        match self {
            RetryPolicy::UpstreamInformed => 0,
            RetryPolicy::ExponentialBackoff { max_delay_cap } => backoff_delay(
                *max_delay_cap,
                failures,
            ),
        }
    }

    /// The decision table. A non-empty batch stops the retrying; an empty
    /// batch is asked for again at once; a rate limit is waited out; a
    /// timed-out attempt is repeated after the delay that this policy puts
    /// behind a failure; an unreadable answer or a transient error stops the
    /// retrying and is surfaced.
    pub open spec fn decision<P>(&self, outcome: AttemptOutcome<P>, state: RetryState) -> Decision<
        P,
    > {
        match outcome {
            AttemptOutcome::Delivered(events) => if events@.len() > 0 {
                Decision::Stop(outcome)
            } else {
                Decision::RetryAfter(0)
            },
            AttemptOutcome::RateLimited(seconds) => Decision::RetryAfter(seconds),
            AttemptOutcome::AttemptTimedOut => Decision::RetryAfter(
                self.spec_failure_delay(state.consecutive_failures),
            ),
            AttemptOutcome::Invalid(_) => Decision::Stop(outcome),
            AttemptOutcome::Transient(_) => Decision::Stop(outcome),
        }
    }

    /// Decides what to do with the outcome of an attempt and takes note of it
    /// in `state`.
    pub fn decide<P>(&self, outcome: AttemptOutcome<P>, state: &mut RetryState) -> (decision:
        Decision<P>)
        ensures
            decision == self.decision(outcome, *old(state)),
            *final(state) == old(state).after(outcome),
    {
        let failures = state.consecutive_failures;
        state.record(&outcome);
        match outcome {
            AttemptOutcome::Delivered(events) => {
                if events.len() > 0 {
                    Decision::Stop(AttemptOutcome::Delivered(events))
                } else {
                    Decision::RetryAfter(0)
                }
            },
            AttemptOutcome::RateLimited(seconds) => Decision::RetryAfter(seconds),
            AttemptOutcome::AttemptTimedOut => Decision::RetryAfter(self.failure_delay(failures)),
            AttemptOutcome::Invalid(reason) => Decision::Stop(AttemptOutcome::Invalid(reason)),
            AttemptOutcome::Transient(cause) => Decision::Stop(AttemptOutcome::Transient(cause)),
        }
    }
}

} // verus!
