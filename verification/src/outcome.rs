use crate::cursor::Event;
use crate::error::Error;
use vstd::prelude::*;

verus! {

/// How one poll attempt ended.
#[derive(Debug)]
pub enum AttemptOutcome<P> {
    /// The upstream answered with a batch of events, in ascending order of
    /// their identifiers; the batch may be empty.
    Delivered(Vec<Event<P>>),
    /// The upstream asked to come back after this many seconds.
    RateLimited(u32),
    /// The answer could not be read.
    Invalid(Error),
    /// The attempt failed in a way that a later attempt may not.
    Transient(Error),
    /// The attempt ran out of its time budget.
    AttemptTimedOut,
}

/// What the stream hands to its consumer in place of an event.
#[derive(Debug)]
pub enum EngineError {
    /// The upstream or the transport failed; the cursor was left as it was.
    Upstream(Error),
    /// One answer could not be read; the cursor was moved past it.
    MalformedPayload,
    /// The stream was cancelled. Never handed out: cancellation ends the stream.
    Cancelled,
}

/// The outcome that the answer of one poll stands for.
pub open spec fn classified<P>(result: Result<Vec<Event<P>>, Error>) -> AttemptOutcome<P> {
    match result {
        Ok(events) => AttemptOutcome::Delivered(events),
        Err(error) => match error.spec_rate_limit() {
            Some(seconds) => AttemptOutcome::RateLimited(seconds),
            None => if error.spec_is_malformed_payload() {
                AttemptOutcome::Invalid(error)
            } else {
                AttemptOutcome::Transient(error)
            },
        },
    }
}

/// Classifies the answer of one poll: a batch is delivered, an answer with
/// status 429 and a usable hint is a rate limit, an unreadable payload is
/// invalid, and every other failure is transient.
pub fn classify<P>(result: Result<Vec<Event<P>>, Error>) -> (outcome: AttemptOutcome<P>)
    ensures
        outcome == classified(result),
{
    match result {
        Ok(events) => AttemptOutcome::Delivered(events),
        Err(error) => match error.rate_limit() {
            Some(seconds) => AttemptOutcome::RateLimited(seconds),
            None => if error.is_malformed_payload() {
                AttemptOutcome::Invalid(error)
            } else {
                AttemptOutcome::Transient(error)
            },
        },
    }
}

impl<P> AttemptOutcome<P> {
    /// True for the outcomes that count as failures of the upstream or the
    /// transport: an unreadable answer, a transient error, a timed-out attempt.
    pub open spec fn spec_is_failure(&self) -> bool {
        self is Invalid || self is Transient || self is AttemptTimedOut
    }

    /// True for the outcomes that count as failures of the upstream or the
    /// transport: an unreadable answer, a transient error, a timed-out attempt.
    #[verifier::when_used_as_spec(spec_is_failure)]
    pub fn is_failure(&self) -> (failure: bool)
        ensures
            failure == self.spec_is_failure(),
    {
        match self {
            AttemptOutcome::Invalid(_) => true,
            AttemptOutcome::Transient(_) => true,
            AttemptOutcome::AttemptTimedOut => true,
            _ => false,
        }
    }
}

} // verus!
