use crate::cursor::{at_or_after, cursor_le, ids_below_limit, lemma_max_event_id, Event};
use crate::outcome::{AttemptOutcome, EngineError};
use crate::retry::RetryPolicy;
use crate::updates_pool_stream::{Action, Input, Phase, StreamModel, Wait};
use vstd::prelude::*;

verus! {

impl<P> StreamModel<P> {
    /// The upstream keeps to its protocol: a batch that ends an awaited
    /// attempt holds no event from before the cursor that asked for it.
    pub open spec fn in_protocol(self, input: Input<P>) -> bool {
        self.phase == Phase::Polling(Wait::Attempt) ==> (input matches Input::Attempt(
            AttemptOutcome::Delivered(events),
        ) ==> at_or_after(self.cursor, events@))
    }

    /// The inputs that move the cursor: while an attempt is awaited, a batch
    /// that is not empty, and an unreadable answer when a position is known.
    pub open spec fn moves_cursor(self, input: Input<P>) -> bool {
        self.phase == Phase::Polling(Wait::Attempt) && match input {
            Input::Attempt(AttemptOutcome::Delivered(events)) => events@.len() > 0,
            Input::Attempt(AttemptOutcome::Invalid(_)) => self.cursor is Some,
            _ => false,
        }
    }

    /// The state after a run of inputs, taken one after the other.
    pub open spec fn run(self, inputs: Seq<Input<P>>) -> StreamModel<P>
        decreases inputs.len(),
    {
        if inputs.len() == 0 {
            self
        } else {
            self.step(inputs[0]).0.run(inputs.drop_first())
        }
    }

    /// Every input of the run fits the machine's integers and the upstream's
    /// protocol in the state in which it arrives.
    pub open spec fn admits(self, inputs: Seq<Input<P>>) -> bool
        decreases inputs.len(),
    {
        inputs.len() > 0 ==> {
            &&& self.accepts(inputs[0])
            &&& self.in_protocol(inputs[0])
            &&& self.step(inputs[0]).0.admits(inputs.drop_first())
        }
    }
}

/// A stream starts well-formed.
pub proof fn initial_is_well_formed<P>(
    start_offset: Option<i64>,
    event_filter: Option<crate::requests::EventFilter>,
    policy: RetryPolicy,
)
    ensures
        StreamModel::<P>::initial(start_offset, event_filter, policy).wf(),
{
}

/// Every step keeps the stream well-formed.
pub proof fn step_keeps_well_formed<P>(s: StreamModel<P>, input: Input<P>)
    requires
        s.wf(),
        s.accepts(input),
    ensures
        s.step(input).0.wf(),
{
    let next = s.step(input).0;
    if s.phase == Phase::Polling(Wait::Attempt) {
        if let Input::Attempt(AttemptOutcome::Delivered(events)) = input {
            if events@.len() > 0 {
                lemma_max_event_id(events@);
                assert(s.buffer + events@ =~= events@);
                assert forall|i: int| 0 <= i < next.buffer.len() implies (#[trigger] next.buffer[i]).event_id
                    < next.cursor->0 by {
                    assert(next.buffer[i] == events@[i + 1]);
                }
            }
        }
    } else if s.phase == Phase::Idle {
        if input is Pull && s.buffer.len() > 0 {
            assert forall|i: int| 0 <= i < next.buffer.len() implies (#[trigger] next.buffer[i]).event_id
                < next.cursor->0 by {
                assert(next.buffer[i] == s.buffer[i + 1]);
            }
        }
    }
}

/// The cursor never moves back. It moves forward on exactly two inputs, a
/// delivered batch that is not empty and an unreadable answer at a known
/// position, and stays where it is on every other one: an empty batch, a
/// rate limit, a timed-out attempt, a transient error, a pull, the end of a
/// delay, a cancellation.
pub proof fn cursor_never_decreases<P>(s: StreamModel<P>, input: Input<P>)
    requires
        s.accepts(input),
        s.in_protocol(input),
    ensures
        cursor_le(s.cursor, s.step(input).0.cursor),
        s.step(input).0.cursor != s.cursor <==> s.moves_cursor(input),
{
    if s.phase == Phase::Polling(Wait::Attempt) {
        if let Input::Attempt(AttemptOutcome::Delivered(events)) = input {
            if events@.len() > 0 {
                lemma_max_event_id(events@);
            }
        }
    }
}

/// Over any run of attempts, pulls, delays and cancellations the cursor at
/// the end is not before the cursor at the start.
pub proof fn cursor_never_decreases_over_a_run<P>(s: StreamModel<P>, inputs: Seq<Input<P>>)
    requires
        s.admits(inputs),
    ensures
        cursor_le(s.cursor, s.run(inputs).cursor),
    decreases inputs.len(),
{
    if inputs.len() > 0 {
        cursor_never_decreases(s, inputs[0]);
        cursor_never_decreases_over_a_run(s.step(inputs[0]).0, inputs.drop_first());
    }
}

/// No event is lost under success: once a batch that is not empty was
/// delivered, the cursor lies behind every event of it, the highest
/// included, and so does the cursor of every request that the stream makes
/// from then on, whatever run of inputs follows.
pub proof fn delivered_events_are_acknowledged<P>(
    s: StreamModel<P>,
    events: Vec<Event<P>>,
    later: Seq<Input<P>>,
)
    requires
        s.phase == Phase::Polling(Wait::Attempt),
        events@.len() > 0,
        ids_below_limit(events@),
        s.step(Input::Attempt(AttemptOutcome::Delivered(events))).0.admits(later),
    ensures
        ({
            let after = s.step(Input::Attempt(AttemptOutcome::Delivered(events))).0.run(later);
            &&& after.cursor is Some
            &&& after.request().cursor == after.cursor
            &&& forall|i: int|
                0 <= i < events@.len() ==> (#[trigger] events@[i]).event_id < after.cursor->0
        }),
{
    let next = s.step(Input::Attempt(AttemptOutcome::Delivered(events))).0;
    lemma_max_event_id(events@);
    cursor_never_decreases_over_a_run(next, later);
}

/// A delivered batch is yielded in the order in which it came: its first
/// event at once, the others wait in the buffer in their order.
pub proof fn batch_is_yielded_in_order<P>(s: StreamModel<P>, events: Vec<Event<P>>)
    requires
        s.wf(),
        s.phase == Phase::Polling(Wait::Attempt),
        events@.len() > 0,
    ensures
        ({
            let (next, action) = s.step(Input::Attempt(AttemptOutcome::Delivered(events)));
            &&& action == Action::Yield(Ok(events@[0]))
            &&& next.buffer == events@.drop_first()
            &&& next.phase == Phase::Idle
            &&& next.retry.consecutive_failures == 0
        }),
{
    assert(s.buffer + events@ =~= events@);
}

/// The state after `count` pulls of a stream that is neither polling nor
/// cancelled and holds at least that many events.
pub open spec fn after_pulls<P>(s: StreamModel<P>, count: nat) -> StreamModel<P>
    decreases count,
{
    if count == 0 {
        s
    } else {
        after_pulls(s.step(Input::Pull).0, (count - 1) as nat)
    }
}

/// While events wait in the buffer, pulls hand them out one by one in their
/// order and start no poll: after `count` pulls the next pull yields the
/// event at place `count`, and the cursor has not moved.
pub proof fn pulls_drain_the_buffer_in_order<P>(s: StreamModel<P>, count: nat)
    requires
        s.phase == Phase::Idle,
        count < s.buffer.len(),
    ensures
        after_pulls(s, count).phase == Phase::Idle,
        after_pulls(s, count).cursor == s.cursor,
        after_pulls(s, count).buffer == s.buffer.skip(count as int),
        after_pulls(s, count).step(Input::Pull).1 == Action::Yield(Ok(s.buffer[count as int])),
    decreases count,
{
    if count == 0 {
        assert(s.buffer.skip(0) =~= s.buffer);
    } else {
        let next = s.step(Input::Pull).0;
        pulls_drain_the_buffer_in_order(next, (count - 1) as nat);
        assert(next.buffer.skip(count - 1) =~= s.buffer.skip(count as int));
    }
}

/// A new cycle of polls starts only when the buffer is empty: a pull that
/// is answered with a poll or a delay found nothing to yield.
pub proof fn polls_start_on_an_empty_buffer<P>(s: StreamModel<P>)
    ensures
        (s.step(Input::Pull).1 is Poll || s.step(Input::Pull).1 is Sleep) ==> s.phase
            == Phase::Idle && s.buffer.len() == 0,
{
}

/// At most one attempt is under way: a poll is asked for only on the way
/// into the state that awaits its outcome, and while an outcome is awaited
/// nothing but that outcome makes the stream ask again.
pub proof fn one_attempt_at_a_time<P>(s: StreamModel<P>, input: Input<P>)
    ensures
        s.step(input).1 is Poll ==> s.step(input).0.phase == Phase::Polling(Wait::Attempt),
        s.step(input).1 is Poll ==> s.step(input).1 == Action::<P>::Poll(
            s.step(input).0.request(),
        ),
        s.phase == Phase::Polling(Wait::Attempt) && s.step(input).1 is Poll ==> input is Attempt,
{
}

/// An empty batch is asked for again at once and changes nothing but the
/// count of failures, which it clears: cursor and buffer are as before, and
/// the request that goes out is the one that went out before.
pub proof fn empty_batch_leaves_the_cursor<P>(s: StreamModel<P>, events: Vec<Event<P>>)
    requires
        s.phase == Phase::Polling(Wait::Attempt),
        events@.len() == 0,
    ensures
        ({
            let (next, action) = s.step(Input::Attempt(AttemptOutcome::Delivered(events)));
            &&& next.cursor == s.cursor
            &&& next.buffer == s.buffer
            &&& next.phase == s.phase
            &&& next.retry.consecutive_failures == 0
            &&& action == Action::<P>::Poll(s.request())
        }),
{
}

/// An unreadable answer is surfaced once and skipped: the consumer gets
/// `MalformedPayload`, the cursor moves from a known position to the next
/// one, and the poll that the next pull starts, at once or behind the delay
/// that the policy sets, asks for that next position.
pub proof fn malformed_payload_is_skipped<P>(s: StreamModel<P>, reason: crate::error::Error)
    requires
        s.wf(),
        s.phase == Phase::Polling(Wait::Attempt),
        s.cursor != Some(i64::MAX),
    ensures
        ({
            let (next, action) = s.step(Input::Attempt(AttemptOutcome::Invalid(reason)));
            let (polling, resumed) = next.step(Input::Pull);
            &&& action == Action::<P>::Yield(Err(EngineError::MalformedPayload))
            &&& next.phase == Phase::Idle
            &&& s.cursor matches Some(c) ==> next.cursor == Some((c + 1) as i64)
            &&& s.cursor is None ==> next.cursor is None
            &&& next.pending_delay == 0 ==> resumed == Action::<P>::Poll(next.request())
            &&& next.pending_delay > 0 ==> resumed == Action::<P>::Sleep(next.pending_delay)
                && polling.step(Input::DelayElapsed).1 == Action::<P>::Poll(next.request())
            &&& next.request().cursor == next.cursor
            &&& s.policy == RetryPolicy::UpstreamInformed ==> next.pending_delay == 0
        }),
{
}

/// A transient error is surfaced once and leaves the cursor: the attempt
/// that follows asks for the same position again.
pub proof fn transient_error_keeps_the_cursor<P>(s: StreamModel<P>, cause: crate::error::Error)
    requires
        s.phase == Phase::Polling(Wait::Attempt),
    ensures
        ({
            let (next, action) = s.step(Input::Attempt(AttemptOutcome::Transient(cause)));
            &&& action == Action::<P>::Yield(Err(EngineError::Upstream(cause)))
            &&& next.phase == Phase::Idle
            &&& next.cursor == s.cursor
            &&& next.request() == s.request()
        }),
{
}

/// A rate limit is obeyed and never surfaced: the stream asks for a delay of
/// exactly the seconds that the upstream named and keeps cursor, buffer and
/// failure count. While that delay runs, nothing but its end makes the
/// stream poll, and the poll that then goes out carries the cursor of the
/// attempt that was limited.
pub proof fn rate_limit_is_waited_out<P>(s: StreamModel<P>, seconds: u32, meanwhile: Input<P>)
    requires
        s.phase == Phase::Polling(Wait::Attempt),
        seconds > 0,
    ensures
        ({
            let (waiting, action) = s.step(Input::Attempt(AttemptOutcome::RateLimited(seconds)));
            &&& action == Action::<P>::Sleep(seconds)
            &&& waiting.phase == Phase::Polling(Wait::Delay)
            &&& waiting.cursor == s.cursor
            &&& waiting.retry == s.retry
            &&& waiting.buffer == s.buffer
            &&& !(meanwhile is DelayElapsed) ==> !(waiting.step(meanwhile).1 is Poll)
                && !(waiting.step(meanwhile).1 is Yield)
            &&& !(meanwhile is DelayElapsed) && !(meanwhile is Cancel) ==> waiting.step(meanwhile)
                == (waiting, Action::<P>::Pending)
            &&& waiting.step(Input::DelayElapsed).1 == Action::<P>::Poll(s.request())
        }),
{
}

/// A timed-out attempt is repeated and never surfaced. Where the upstream
/// sets the pace it is repeated at once, with the request as it was.
pub proof fn timed_out_attempt_is_repeated<P>(s: StreamModel<P>)
    requires
        s.phase == Phase::Polling(Wait::Attempt),
    ensures
        ({
            let (next, action) = s.step(Input::Attempt(AttemptOutcome::AttemptTimedOut));
            &&& next.cursor == s.cursor
            &&& next.buffer == s.buffer
            &&& action is Poll || action is Sleep
            &&& s.policy == RetryPolicy::UpstreamInformed ==> action == Action::<P>::Poll(
                s.request(),
            ) && next.phase == s.phase
        }),
{
}

/// Only two outcomes reach the consumer as errors, an unreadable answer and
/// a transient error, each once, as the item that ends the pull in which it
/// came. Rate limits, timed-out attempts and empty batches are dealt with
/// inside the stream.
pub proof fn only_failures_of_an_attempt_are_surfaced<P>(s: StreamModel<P>, input: Input<P>)
    ensures
        s.step(input).1 matches Action::Yield(Err(error)) ==> {
            &&& s.phase == Phase::Polling(Wait::Attempt)
            &&& s.step(input).0.phase == Phase::Idle
            &&& match error {
                EngineError::MalformedPayload => input matches Input::Attempt(
                    AttemptOutcome::Invalid(_),
                ),
                EngineError::Upstream(cause) => input == Input::<P>::Attempt(
                    AttemptOutcome::Transient(cause),
                ),
                EngineError::Cancelled => false,
            }
        },
{
}

/// Cancellation ends the stream from every state, also while an attempt or
/// a delay is under way.
pub proof fn cancellation_is_taken_in_every_state<P>(s: StreamModel<P>)
    ensures
        s.step(Input::Cancel).0.phase == Phase::Cancelled,
        s.step(Input::Cancel).1 == Action::<P>::End,
{
}

/// A cancelled stream never yields again: whatever arrives, the outcome of
/// an attempt that was under way included, the stream stays as it is,
/// asks for nothing and ends.
pub proof fn cancelled_stream_stays_silent<P>(s: StreamModel<P>, input: Input<P>)
    requires
        s.phase == Phase::Cancelled,
    ensures
        s.step(input) == (s, Action::<P>::End),
{
}

/// What the stream asks for in answer to the input at place `at` of a run.
pub open spec fn action_at<P>(s: StreamModel<P>, inputs: Seq<Input<P>>, at: int) -> Action<P>
    recommends
        0 <= at < inputs.len(),
{
    s.run(inputs.take(at)).step(inputs[at]).1
}

/// Cancellation ends the stream for good, in whatever state it comes, an
/// attempt or a delay under way included: to every input of every run that
/// follows it the stream answers that it has ended, so that it yields no
/// event and no error, starts no poll and asks for no delay.
pub proof fn nothing_is_yielded_after_cancellation<P>(
    s: StreamModel<P>,
    later: Seq<Input<P>>,
    at: int,
)
    requires
        0 <= at < later.len(),
    ensures
        action_at(s.step(Input::Cancel).0, later, at) == Action::<P>::End,
{
    let cancelled = s.step(Input::Cancel).0;
    cancelled_stream_stays_cancelled(cancelled, later.take(at));
}

/// After a cancellation no run of inputs brings the stream back.
pub proof fn cancelled_stream_stays_cancelled<P>(s: StreamModel<P>, inputs: Seq<Input<P>>)
    requires
        s.phase == Phase::Cancelled,
    ensures
        s.run(inputs) == s,
    decreases inputs.len(),
{
    if inputs.len() > 0 {
        cancelled_stream_stays_silent(s, inputs[0]);
        cancelled_stream_stays_cancelled(s, inputs.drop_first());
    }
}

} // verus!
