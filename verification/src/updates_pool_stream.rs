use crate::buffer::Sequencer;
use crate::cursor::{
    advance, advanced, ids_below_limit, leave_room, skip_malformed, skipped, Event,
};
use crate::error::Error;
use crate::outcome::{AttemptOutcome, EngineError};
use crate::requests::EventFilter;
use crate::retry::{Decision, RetryPolicy, RetryState};
use vstd::prelude::*;

verus! {

/// The seconds that the upstream may hold a poll open before it answers
/// with an empty batch.
pub const LONG_POLL_TIMEOUT: u32 = 10;

/// The seconds that one poll attempt may take before it counts as timed
/// out: longer than the upstream holds a poll open, so that an attempt is
/// given up only when no answer comes at all.
pub const ATTEMPT_TIME_BUDGET: u32 = 30;

/// What the stream says of an answer that it cannot take.
pub const OUT_OF_RANGE: &'static str =
    "the identifier of an update leaves no room for the offset that follows it";

/// True for the error that stands for an input that the machine's integers
/// do not let the stream take.
pub open spec fn is_refusal(cause: Error) -> bool {
    cause matches Error::RequestBuilt(text) && text@ == OUT_OF_RANGE@
}

/// What a stream that is polling waits for.
#[derive(Debug, Clone, Copy, PartialEq, Eq, Structural)]
pub enum Wait {
    /// A poll attempt is under way.
    Attempt,
    /// A delay runs; the next attempt starts when it is over.
    Delay,
}

/// The states of the stream controller.
#[derive(Debug, Clone, Copy, PartialEq, Eq, Structural)]
pub enum Phase {
    /// Nothing is under way; the next pull is served from the buffer, or
    /// starts a poll when the buffer is empty.
    Idle,
    /// The consumer waits for an item while an attempt or a delay is under way.
    Polling(Wait),
    /// The stream was cancelled and yields nothing more.
    Cancelled,
}

/// What one poll attempt asks the upstream for.
#[derive(Debug, Clone, Copy, PartialEq, Eq, Structural)]
pub struct PollRequest {
    /// The first event wanted; `None` leaves the choice to the upstream.
    pub cursor: Option<i64>,
    /// The largest number of events wanted in one batch.
    pub batch_limit: Option<u32>,
    /// The seconds that the upstream may hold the poll open.
    pub long_poll_timeout: Option<u32>,
    /// The update types wanted; `None` keeps the upstream's setting.
    pub event_filter: Option<EventFilter>,
}

/// What happened outside the controller.
#[derive(Debug)]
pub enum Input<P> {
    /// The consumer asks for the next item.
    Pull,
    /// The poll attempt that the controller asked for has ended.
    Attempt(AttemptOutcome<P>),
    /// The delay that the controller asked for is over.
    DelayElapsed,
    /// The stream is to end.
    Cancel,
}

/// What the controller wants done next.
#[derive(Debug)]
pub enum Action<P> {
    /// Hand this item to the consumer.
    Yield(Result<Event<P>, EngineError>),
    /// Make one poll attempt with this request and report its outcome.
    Poll(PollRequest),
    /// Wait this many seconds and report that they are over.
    Sleep(u32),
    /// Nothing new: what was asked for before is still awaited.
    Pending,
    /// The stream has ended; there is nothing more to do or to yield.
    End,
}

/// The mathematical state of a stream.
pub struct StreamModel<P> {
    /// The next event to ask for.
    pub cursor: Option<i64>,
    /// What the retry policy keeps between attempts.
    pub retry: RetryState,
    /// The rule by which delays are chosen.
    pub policy: RetryPolicy,
    /// Seconds to wait before the next cycle of polls starts.
    pub pending_delay: u32,
    /// The events that wait to be yielded, the next one first.
    pub buffer: Seq<Event<P>>,
    /// Where the controller stands.
    pub phase: Phase,
    /// The batch limit of every poll.
    pub batch_limit: Option<u32>,
    /// The long-poll timeout of every poll.
    pub long_poll_timeout: Option<u32>,
    /// The filter of every poll.
    pub event_filter: Option<EventFilter>,
}

impl<P> StreamModel<P> {
    /// The state of a stream that was just made.
    pub open spec fn initial(
        start_offset: Option<i64>,
        event_filter: Option<EventFilter>,
        policy: RetryPolicy,
    ) -> StreamModel<P> {
        StreamModel {
            cursor: start_offset,
            retry: RetryState { consecutive_failures: 0 },
            policy,
            pending_delay: 0,
            buffer: Seq::empty(),
            phase: Phase::Idle,
            batch_limit: None,
            long_poll_timeout: Some(LONG_POLL_TIMEOUT),
            event_filter,
        }
    }

    /// What the controller keeps true of itself: while it polls the buffer is
    /// empty, and whatever waits in the buffer lies before the cursor.
    pub open spec fn wf(self) -> bool {
        &&& self.phase is Polling ==> self.buffer.len() == 0
        &&& self.buffer.len() > 0 ==> self.cursor is Some
        &&& forall|i: int|
            0 <= i < self.buffer.len() ==> (#[trigger] self.buffer[i]).event_id < self.cursor->0
    }

    /// The request of the next poll attempt: the stream's settings with the
    /// cursor as it stands now.
    pub open spec fn request(self) -> PollRequest {
        PollRequest {
            cursor: self.cursor,
            batch_limit: self.batch_limit,
            long_poll_timeout: self.long_poll_timeout,
            event_filter: self.event_filter,
        }
    }

    /// The inputs that the machine's integers let the stream take: while an
    /// attempt is awaited, a delivered batch holds no identifier that no
    /// cursor can follow, and an unreadable answer does not meet a cursor
    /// that cannot be moved on.
    pub open spec fn accepts(self, input: Input<P>) -> bool {
        self.phase == Phase::Polling(Wait::Attempt) ==> match input {
            Input::Attempt(AttemptOutcome::Delivered(events)) => ids_below_limit(events@),
            Input::Attempt(AttemptOutcome::Invalid(_)) => self.cursor != Some(i64::MAX),
            _ => true,
        }
    }

    /// A pull in the idle state: the buffer's first event if there is one,
    /// else the start of a cycle of polls, behind the pending delay if one
    /// is set.
    pub open spec fn pulled(self) -> (StreamModel<P>, Action<P>) {
        if self.buffer.len() > 0 {
            (StreamModel { buffer: self.buffer.drop_first(), ..self }, Action::Yield(Ok(self.buffer[0])))
        } else if self.pending_delay > 0 {
            (
                StreamModel { pending_delay: 0, phase: Phase::Polling(Wait::Delay), ..self },
                Action::Sleep(self.pending_delay),
            )
        } else {
            (StreamModel { phase: Phase::Polling(Wait::Attempt), ..self }, Action::Poll(self.request()))
        }
    }

    /// The end of an attempt: the retry policy decides. A retry goes out at
    /// once or behind a delay, with the cursor as it was. A delivered batch
    /// moves the cursor behind it, goes into the buffer and yields its first
    /// event. An unreadable answer moves the cursor by one and is surfaced; a
    /// transient error is surfaced and leaves the cursor. Both leave the
    /// delay that the policy puts before the next cycle.
    pub open spec fn settled(self, outcome: AttemptOutcome<P>) -> (StreamModel<P>, Action<P>) {
        let retry = self.retry.after(outcome);
        let delay = self.policy.spec_failure_delay(self.retry.consecutive_failures);
        match self.policy.decision(outcome, self.retry) {
            Decision::RetryAfter(seconds) => if seconds == 0 {
                (StreamModel { retry, ..self }, Action::Poll(self.request()))
            } else {
                (
                    StreamModel { retry, phase: Phase::Polling(Wait::Delay), ..self },
                    Action::Sleep(seconds),
                )
            },
            Decision::Stop(AttemptOutcome::Delivered(events)) => {
                let waiting = self.buffer + events@;
                (
                    StreamModel {
                        retry,
                        cursor: advanced(self.cursor, events@),
                        buffer: waiting.drop_first(),
                        phase: Phase::Idle,
                        ..self
                    },
                    Action::Yield(Ok(waiting[0])),
                )
            },
            Decision::Stop(AttemptOutcome::Invalid(_)) => (
                StreamModel {
                    retry,
                    cursor: skipped(self.cursor),
                    pending_delay: delay,
                    phase: Phase::Idle,
                    ..self
                },
                Action::Yield(Err(EngineError::MalformedPayload)),
            ),
            Decision::Stop(AttemptOutcome::Transient(cause)) => (
                StreamModel { retry, pending_delay: delay, phase: Phase::Idle, ..self },
                Action::Yield(Err(EngineError::Upstream(cause))),
            ),
            Decision::Stop(_) => (StreamModel { retry, ..self }, Action::Pending),
        }
    }

    /// The transition function of the stream controller: the state after
    /// `input` and what is to be done next. A cancelled stream stays
    /// cancelled and ends; cancellation is taken in every other state; an
    /// input that the current state does not wait for changes nothing.
    pub open spec fn step(self, input: Input<P>) -> (StreamModel<P>, Action<P>) {
        if self.phase == Phase::Cancelled {
            (self, Action::End)
        } else {
            match input {
                Input::Cancel => (StreamModel { phase: Phase::Cancelled, ..self }, Action::End),
                Input::Pull => if self.phase == Phase::Idle {
                    self.pulled()
                } else {
                    (self, Action::Pending)
                },
                Input::DelayElapsed => if self.phase == Phase::Polling(Wait::Delay) {
                    (
                        StreamModel { phase: Phase::Polling(Wait::Attempt), ..self },
                        Action::Poll(self.request()),
                    )
                } else {
                    (self, Action::Pending)
                },
                Input::Attempt(outcome) => if self.phase == Phase::Polling(Wait::Attempt) {
                    self.settled(outcome)
                } else {
                    (self, Action::Pending)
                },
            }
        }
    }
}

/// The stream controller: it owns the cursor, the retry state and the buffer
/// of one stream of updates, and says after every input what is to be done
/// next. Whoever drives it performs the polls and the delays and reports
/// back; the controller itself never waits.
pub struct UpdatesPoolStream<P> {
    buffer: Sequencer<P>,
    last_id: Option<i64>,
    retries: RetryState,
    policy: RetryPolicy,
    retry_delay: u32,
    phase: Phase,
    limit: Option<u32>,
    timeout: Option<u32>,
    filter: Option<EventFilter>,
}

impl<P> View for UpdatesPoolStream<P> {
    type V = StreamModel<P>;

    closed spec fn view(&self) -> StreamModel<P> {
        StreamModel {
            cursor: self.last_id,
            retry: self.retries,
            policy: self.policy,
            pending_delay: self.retry_delay,
            buffer: self.buffer@,
            phase: self.phase,
            batch_limit: self.limit,
            long_poll_timeout: self.timeout,
            event_filter: self.filter,
        }
    }
}

impl<P> UpdatesPoolStream<P> {
    /// A stream that starts at `start_offset`, asks for the update types of
    /// `updates_filter` and lets the upstream set the pace of retries.
    pub fn new(start_offset: Option<i64>, updates_filter: Option<EventFilter>) -> (stream: Self)
        ensures
            stream@ == StreamModel::<P>::initial(
                start_offset,
                updates_filter,
                RetryPolicy::UpstreamInformed,
            ),
            stream@.wf(),
    {
        Self::with_policy(start_offset, updates_filter, RetryPolicy::UpstreamInformed)
    }

    /// A stream that starts at `start_offset`, asks for the update types of
    /// `updates_filter` and chooses its delays by `policy`.
    pub fn with_policy(
        start_offset: Option<i64>,
        updates_filter: Option<EventFilter>,
        policy: RetryPolicy,
    ) -> (stream: Self)
        ensures
            stream@ == StreamModel::<P>::initial(start_offset, updates_filter, policy),
            stream@.wf(),
    {
        UpdatesPoolStream {
            buffer: Sequencer::new(),
            last_id: start_offset,
            retries: RetryState::new(),
            policy,
            retry_delay: 0,
            phase: Phase::Idle,
            limit: None,
            timeout: Some(LONG_POLL_TIMEOUT),
            filter: updates_filter,
        }
    }

    /// The next event to ask the upstream for.
    pub fn cursor(&self) -> (cursor: Option<i64>)
        ensures
            cursor == self@.cursor,
    {
        self.last_id
    }

    /// Where the controller stands.
    pub fn phase(&self) -> (phase: Phase)
        ensures
            phase == self@.phase,
    {
        self.phase
    }

    /// True once the stream was cancelled.
    pub fn is_canceled(&self) -> (cancelled: bool)
        ensures
            cancelled == (self@.phase == Phase::Cancelled),
    {
        self.phase == Phase::Cancelled
    }

    /// The number of events that wait in the buffer.
    pub fn buffered(&self) -> (n: usize)
        ensures
            n == self@.buffer.len(),
    {
        self.buffer.len()
    }

    /// The failures seen since the last delivered batch.
    pub fn retries(&self) -> (n: u16)
        ensures
            n == self@.retry.consecutive_failures,
    {
        self.retries.consecutive_failures
    }

    /// The request that the next poll attempt carries.
    pub fn request(&self) -> (request: PollRequest)
        ensures
            request == self@.request(),
    {
        PollRequest {
            cursor: self.last_id,
            batch_limit: self.limit,
            long_poll_timeout: self.timeout,
            event_filter: self.filter,
        }
    }

    /// Tells whether `poll` may be called with `input` in the current state.
    pub fn accepts(&self, input: &Input<P>) -> (fits: bool)
        ensures
            fits == self@.accepts(*input),
    {
        if self.phase != Phase::Polling(Wait::Attempt) {
            return true;
        }
        match input {
            Input::Attempt(AttemptOutcome::Delivered(events)) => leave_room(events),
            Input::Attempt(AttemptOutcome::Invalid(_)) => match self.last_id {
                Some(c) => c != i64::MAX,
                None => true,
            },
            _ => true,
        }
    }

    /// Ends the stream: whatever arrives later is discarded, and nothing is
    /// yielded any more.
    pub fn cancel(&mut self)
        ensures
            final(self)@ == old(self)@.step(Input::Cancel).0,
            final(self)@.phase == Phase::Cancelled,
            old(self)@.wf() ==> final(self)@.wf(),
    {
        self.phase = Phase::Cancelled;
    }

    /// Takes one input and says what is to be done next, as the transition
    /// function `StreamModel::step` lays down.
    pub fn poll(&mut self, input: Input<P>) -> (action: Action<P>)
        requires
            old(self)@.accepts(input),
        ensures
            (final(self)@, action) == old(self)@.step(input),
            old(self)@.wf() ==> final(self)@.wf(),
    {
        proof {
            if self@.wf() {
                crate::guarantees::step_keeps_well_formed(self@, input);
            }
        }
        match self.phase {
            Phase::Cancelled => Action::End,
            Phase::Idle => match input {
                Input::Cancel => {
                    self.phase = Phase::Cancelled;
                    Action::End
                },
                Input::Pull => self.pull(),
                _ => Action::Pending,
            },
            Phase::Polling(Wait::Delay) => match input {
                Input::Cancel => {
                    self.phase = Phase::Cancelled;
                    Action::End
                },
                Input::DelayElapsed => {
                    self.phase = Phase::Polling(Wait::Attempt);
                    Action::Poll(self.request())
                },
                _ => Action::Pending,
            },
            Phase::Polling(Wait::Attempt) => match input {
                Input::Cancel => {
                    self.phase = Phase::Cancelled;
                    Action::End
                },
                Input::Attempt(outcome) => self.settle(outcome),
                _ => Action::Pending,
            },
        }
    }

    /// Takes one input as `poll` does, if the machine's integers let the
    /// stream take it; hands the input back and changes nothing if they do
    /// not.
    pub fn offer(&mut self, input: Input<P>) -> (answer: Result<Action<P>, Input<P>>)
        ensures
            match answer {
                Ok(action) => old(self)@.accepts(input) && (final(self)@, action) == old(
                    self,
                )@.step(input),
                Err(refused) => !old(self)@.accepts(input) && refused == input && final(self)@
                    == old(self)@,
            },
            old(self)@.wf() ==> final(self)@.wf(),
    {
        if self.accepts(&input) {
            Ok(self.poll(input))
        } else {
            Err(input)
        }
    }

    /// Takes one input whatever it holds, so that no answer of the upstream
    /// stops the stream. An input that the machine's integers let the stream
    /// take is taken as `poll` takes it. One that they do not, which can
    /// only be the outcome of the attempt that is awaited, counts as a
    /// transient failure of that attempt: it is surfaced to the consumer as
    /// an upstream error that says so, and the cursor stays where it is.
    pub fn feed(&mut self, input: Input<P>) -> (action: Action<P>)
        ensures
            old(self)@.accepts(input) ==> (final(self)@, action) == old(self)@.step(input),
            !old(self)@.accepts(input) ==> exists|cause: Error| #[trigger]
                is_refusal(cause) && (final(self)@, action) == old(self)@.step(
                    Input::Attempt(AttemptOutcome::Transient(cause)),
                ),
            !old(self)@.accepts(input) ==> final(self)@.cursor == old(self)@.cursor
                && final(self)@.phase == Phase::Idle && (action matches Action::Yield(
                Err(EngineError::Upstream(cause)),
            ) && is_refusal(cause)),
            old(self)@.wf() ==> final(self)@.wf(),
    {
        match self.offer(input) {
            Ok(action) => action,
            Err(_) => {
                let cause = Error::RequestBuilt(OUT_OF_RANGE.to_owned());
                assert(is_refusal(cause));
                self.poll(Input::Attempt(AttemptOutcome::Transient(cause)))
            },
        }
    }

    /// Serves a pull in the idle state.
    fn pull(&mut self) -> (action: Action<P>)
        requires
            old(self)@.phase == Phase::Idle,
        ensures
            (final(self)@, action) == old(self)@.pulled(),
    {
        match self.buffer.pop_front() {
            Some(event) => Action::Yield(Ok(event)),
            None => {
                if self.retry_delay > 0 {
                    let seconds = self.retry_delay;
                    self.retry_delay = 0;
                    self.phase = Phase::Polling(Wait::Delay);
                    Action::Sleep(seconds)
                } else {
                    self.phase = Phase::Polling(Wait::Attempt);
                    Action::Poll(self.request())
                }
            },
        }
    }

    /// Takes the outcome of the attempt that was awaited.
    fn settle(&mut self, outcome: AttemptOutcome<P>) -> (action: Action<P>)
        requires
            old(self)@.phase == Phase::Polling(Wait::Attempt),
            old(self)@.accepts(Input::Attempt(outcome)),
        ensures
            (final(self)@, action) == old(self)@.settled(outcome),
    {
        let delay = self.policy.failure_delay(self.retries.consecutive_failures);
        match self.policy.decide(outcome, &mut self.retries) {
            Decision::RetryAfter(seconds) => {
                if seconds == 0 {
                    Action::Poll(self.request())
                } else {
                    self.phase = Phase::Polling(Wait::Delay);
                    Action::Sleep(seconds)
                }
            },
            Decision::Stop(AttemptOutcome::Delivered(events)) => {
                self.last_id = advance(self.last_id, &events);
                self.buffer.load(events);
                self.phase = Phase::Idle;
                match self.buffer.pop_front() {
                    Some(event) => Action::Yield(Ok(event)),
                    None => Action::Pending,
                }
            },
            Decision::Stop(AttemptOutcome::Invalid(_)) => {
                self.last_id = skip_malformed(self.last_id);
                self.retry_delay = delay;
                self.phase = Phase::Idle;
                Action::Yield(Err(EngineError::MalformedPayload))
            },
            Decision::Stop(AttemptOutcome::Transient(cause)) => {
                self.retry_delay = delay;
                self.phase = Phase::Idle;
                Action::Yield(Err(EngineError::Upstream(cause)))
            },
            Decision::Stop(_) => Action::Pending,
        }
    }
}

} // verus!
