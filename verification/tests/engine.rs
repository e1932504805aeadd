use rutebot::buffer::Sequencer;
use rutebot::cursor::{advance, leave_room, skip_malformed, Event};
use rutebot::error::Error;
use rutebot::outcome::{classify, AttemptOutcome, EngineError};
use rutebot::requests::{AllowedUpdate, EventFilter};
use rutebot::responses::ResponseParameters;
use rutebot::retry::{backoff_delay, Decision, RetryPolicy, RetryState};
use rutebot::updates_pool_stream::{
    Action, Input, Phase, PollRequest, UpdatesPoolStream, Wait, LONG_POLL_TIMEOUT, OUT_OF_RANGE,
};

fn event(id: i64) -> Event<&'static str> {
    Event { event_id: id, payload: "payload" }
}

fn batch(ids: &[i64]) -> Vec<Event<&'static str>> {
    ids.iter().map(|id| event(*id)).collect()
}

fn expect_poll(action: Action<&'static str>) -> PollRequest {
    match action {
        Action::Poll(request) => request,
        other => panic!("expected a poll, got {:?}", other),
    }
}

fn expect_event(action: Action<&'static str>) -> i64 {
    match action {
        Action::Yield(Ok(event)) => event.event_id,
        other => panic!("expected an event, got {:?}", other),
    }
}

fn expect_sleep(action: Action<&'static str>) -> u32 {
    match action {
        Action::Sleep(seconds) => seconds,
        other => panic!("expected a delay, got {:?}", other),
    }
}

fn rate_limit_error(seconds: i64) -> Error {
    Error::Api {
        error_code: 429,
        description: "Too Many Requests".to_string(),
        parameters: Some(ResponseParameters { migrate_to_chat_id: None, retry_after: Some(seconds) }),
    }
}

#[test]
fn advance_goes_one_past_the_largest_id() {
    assert_eq!(advance(None, &batch(&[100, 101])), Some(102));
    assert_eq!(advance(Some(3), &batch(&[7])), Some(8));
    assert_eq!(advance(Some(3), &batch(&[9, 4, 6])), Some(10));
    assert_eq!(advance(Some(-5), &batch(&[0])), Some(1));
}

#[test]
fn advance_keeps_the_cursor_on_an_empty_batch() {
    assert_eq!(advance(Some(42), &batch(&[])), Some(42));
    assert_eq!(advance(None, &batch(&[])), None);
}

#[test]
fn advance_reaches_the_last_cursor() {
    assert_eq!(advance(None, &batch(&[i64::MAX - 1])), Some(i64::MAX));
}

#[test]
fn leave_room_finds_the_id_that_no_cursor_can_follow() {
    assert!(leave_room(&batch(&[1, 2, 3])));
    assert!(leave_room(&batch(&[])));
    assert!(!leave_room(&batch(&[1, i64::MAX, 3])));
}

#[test]
fn skip_malformed_moves_by_one() {
    assert_eq!(skip_malformed(Some(5)), Some(6));
    assert_eq!(skip_malformed(Some(-1)), Some(0));
    assert_eq!(skip_malformed(None), None);
}

#[test]
fn classify_tells_the_outcomes_apart() {
    match classify(Ok(batch(&[1, 2]))) {
        AttemptOutcome::Delivered(events) => assert_eq!(events.len(), 2),
        other => panic!("{:?}", other),
    }
    match classify::<&'static str>(Err(rate_limit_error(7))) {
        AttemptOutcome::RateLimited(seconds) => assert_eq!(seconds, 7),
        other => panic!("{:?}", other),
    }
    match classify::<&'static str>(Err(Error::Serde("expected value".to_string()))) {
        AttemptOutcome::Invalid(Error::Serde(text)) => assert_eq!(text, "expected value"),
        other => panic!("{:?}", other),
    }
    match classify::<&'static str>(Err(Error::Hyper("connection reset".to_string()))) {
        AttemptOutcome::Transient(Error::Hyper(text)) => assert_eq!(text, "connection reset"),
        other => panic!("{:?}", other),
    }
    match classify::<&'static str>(Err(Error::RequestBuilt("bad uri".to_string()))) {
        AttemptOutcome::Transient(Error::RequestBuilt(_)) => {}
        other => panic!("{:?}", other),
    }
}

#[test]
fn classify_takes_a_rate_limit_only_with_a_usable_hint() {
    let no_hint = Error::Api {
        error_code: 429,
        description: "Too Many Requests".to_string(),
        parameters: None,
    };
    assert!(matches!(classify::<u8>(Err(no_hint)), AttemptOutcome::Transient(_)));
    let no_seconds = Error::Api {
        error_code: 429,
        description: "Too Many Requests".to_string(),
        parameters: Some(ResponseParameters { migrate_to_chat_id: Some(1), retry_after: None }),
    };
    assert!(matches!(classify::<u8>(Err(no_seconds)), AttemptOutcome::Transient(_)));
    assert!(matches!(classify::<u8>(Err(rate_limit_error(-1))), AttemptOutcome::Transient(_)));
    assert!(matches!(
        classify::<u8>(Err(rate_limit_error(4_294_967_296))),
        AttemptOutcome::Transient(_)
    ));
    assert!(matches!(
        classify::<u8>(Err(rate_limit_error(4_294_967_295))),
        AttemptOutcome::RateLimited(4_294_967_295)
    ));
    assert!(matches!(classify::<u8>(Err(rate_limit_error(0))), AttemptOutcome::RateLimited(0)));
    let other_status = Error::Api {
        error_code: 500,
        description: "Internal Server Error".to_string(),
        parameters: Some(ResponseParameters { migrate_to_chat_id: None, retry_after: Some(3) }),
    };
    assert!(matches!(classify::<u8>(Err(other_status)), AttemptOutcome::Transient(_)));
}

#[test]
fn error_exposes_status_and_hint() {
    let limited = rate_limit_error(9);
    assert_eq!(limited.status_code(), Some(429));
    assert_eq!(limited.retry_after(), Some(9));
    assert_eq!(limited.rate_limit(), Some(9));
    assert!(!limited.is_malformed_payload());
    let broken = Error::Serde("eof".to_string());
    assert_eq!(broken.status_code(), None);
    assert_eq!(broken.retry_after(), None);
    assert_eq!(broken.rate_limit(), None);
    assert!(broken.is_malformed_payload());
}

#[test]
fn outcome_knows_failures() {
    assert!(AttemptOutcome::<u8>::AttemptTimedOut.is_failure());
    assert!(AttemptOutcome::<u8>::Invalid(Error::Serde(String::new())).is_failure());
    assert!(AttemptOutcome::<u8>::Transient(Error::Hyper(String::new())).is_failure());
    assert!(!AttemptOutcome::<u8>::RateLimited(1).is_failure());
    assert!(!AttemptOutcome::<u8>::Delivered(vec![]).is_failure());
}

#[test]
fn backoff_doubles_up_to_the_cap() {
    assert_eq!(backoff_delay(60, 0), 1);
    assert_eq!(backoff_delay(60, 1), 2);
    assert_eq!(backoff_delay(60, 2), 4);
    assert_eq!(backoff_delay(60, 5), 32);
    assert_eq!(backoff_delay(60, 6), 60);
    assert_eq!(backoff_delay(60, 7), 60);
    assert_eq!(backoff_delay(64, 6), 64);
    assert_eq!(backoff_delay(255, 8), 255);
    assert_eq!(backoff_delay(60, 40), 60);
    assert_eq!(backoff_delay(60, u16::MAX), 60);
    assert_eq!(backoff_delay(0, 0), 0);
    assert_eq!(backoff_delay(u32::MAX, 31), 2_147_483_648);
    assert_eq!(backoff_delay(u32::MAX, 32), u32::MAX);
}

#[test]
fn retry_state_counts_failures() {
    let mut state = RetryState::new();
    assert_eq!(state.consecutive_failures, 0);
    state.record(&AttemptOutcome::<u8>::AttemptTimedOut);
    state.record(&AttemptOutcome::<u8>::Transient(Error::Hyper(String::new())));
    state.record(&AttemptOutcome::<u8>::Invalid(Error::Serde(String::new())));
    assert_eq!(state.consecutive_failures, 3);
    state.record(&AttemptOutcome::<u8>::RateLimited(5));
    assert_eq!(state.consecutive_failures, 3);
    state.record(&AttemptOutcome::<u8>::Delivered(vec![]));
    assert_eq!(state.consecutive_failures, 0);
}

#[test]
fn retry_state_stops_at_the_largest_count() {
    let mut state = RetryState { consecutive_failures: u16::MAX - 1 };
    state.record(&AttemptOutcome::<u8>::AttemptTimedOut);
    assert_eq!(state.consecutive_failures, u16::MAX);
    state.record(&AttemptOutcome::<u8>::AttemptTimedOut);
    assert_eq!(state.consecutive_failures, u16::MAX);
}

#[test]
fn decision_table_of_the_upstream_informed_policy() {
    let policy = RetryPolicy::UpstreamInformed;
    let mut state = RetryState { consecutive_failures: 4 };
    match policy.decide(AttemptOutcome::Delivered(batch(&[1])), &mut state) {
        Decision::Stop(AttemptOutcome::Delivered(events)) => assert_eq!(events.len(), 1),
        other => panic!("{:?}", other),
    }
    assert_eq!(state.consecutive_failures, 0);

    let mut state = RetryState { consecutive_failures: 4 };
    assert!(matches!(
        policy.decide(AttemptOutcome::<u8>::Delivered(vec![]), &mut state),
        Decision::RetryAfter(0)
    ));
    assert_eq!(state.consecutive_failures, 0);

    let mut state = RetryState { consecutive_failures: 4 };
    assert!(matches!(
        policy.decide(AttemptOutcome::<u8>::RateLimited(7), &mut state),
        Decision::RetryAfter(7)
    ));
    assert_eq!(state.consecutive_failures, 4);

    assert!(matches!(
        policy.decide(AttemptOutcome::<u8>::AttemptTimedOut, &mut state),
        Decision::RetryAfter(0)
    ));
    assert_eq!(state.consecutive_failures, 5);

    assert!(matches!(
        policy.decide(AttemptOutcome::<u8>::Invalid(Error::Serde(String::new())), &mut state),
        Decision::Stop(AttemptOutcome::Invalid(_))
    ));
    assert_eq!(state.consecutive_failures, 6);

    assert!(matches!(
        policy.decide(AttemptOutcome::<u8>::Transient(Error::Hyper(String::new())), &mut state),
        Decision::Stop(AttemptOutcome::Transient(_))
    ));
    assert_eq!(state.consecutive_failures, 7);
}

#[test]
fn decision_table_of_the_backoff_policy() {
    let policy = RetryPolicy::ExponentialBackoff { max_delay_cap: 10 };
    let mut state = RetryState::new();
    assert!(matches!(
        policy.decide(AttemptOutcome::<u8>::AttemptTimedOut, &mut state),
        Decision::RetryAfter(1)
    ));
    assert!(matches!(
        policy.decide(AttemptOutcome::<u8>::AttemptTimedOut, &mut state),
        Decision::RetryAfter(2)
    ));
    assert!(matches!(
        policy.decide(AttemptOutcome::<u8>::AttemptTimedOut, &mut state),
        Decision::RetryAfter(4)
    ));
    assert!(matches!(
        policy.decide(AttemptOutcome::<u8>::AttemptTimedOut, &mut state),
        Decision::RetryAfter(8)
    ));
    assert!(matches!(
        policy.decide(AttemptOutcome::<u8>::AttemptTimedOut, &mut state),
        Decision::RetryAfter(10)
    ));
    assert!(matches!(
        policy.decide(AttemptOutcome::<u8>::RateLimited(3), &mut state),
        Decision::RetryAfter(3)
    ));
    assert_eq!(state.consecutive_failures, 5);
    assert!(matches!(
        policy.decide(AttemptOutcome::<u8>::Delivered(vec![]), &mut state),
        Decision::RetryAfter(0)
    ));
    assert_eq!(state.consecutive_failures, 0);
    assert_eq!(policy.failure_delay(3), 8);
    assert_eq!(RetryPolicy::UpstreamInformed.failure_delay(3), 0);
}

#[test]
fn sequencer_yields_in_batch_order() {
    let mut buffer: Sequencer<&'static str> = Sequencer::new();
    assert!(buffer.is_empty());
    assert!(buffer.pop_front().is_none());
    buffer.load(batch(&[3, 1, 2]));
    buffer.load(batch(&[9]));
    assert_eq!(buffer.len(), 4);
    assert!(!buffer.is_empty());
    let ids: Vec<i64> = std::iter::from_fn(|| buffer.pop_front()).map(|e| e.event_id).collect();
    assert_eq!(ids, vec![3, 1, 2, 9]);
    assert!(buffer.is_empty());
    assert!(buffer.pop_front().is_none());
}

#[test]
fn new_stream_is_idle_at_the_start_offset() {
    let stream: UpdatesPoolStream<&'static str> = UpdatesPoolStream::new(Some(17), None);
    assert_eq!(stream.cursor(), Some(17));
    assert_eq!(stream.phase(), Phase::Idle);
    assert!(!stream.is_canceled());
    assert_eq!(stream.buffered(), 0);
    assert_eq!(stream.retries(), 0);
    assert_eq!(
        stream.request(),
        PollRequest {
            cursor: Some(17),
            batch_limit: None,
            long_poll_timeout: Some(10),
            event_filter: None,
        }
    );
    assert_eq!(LONG_POLL_TIMEOUT, 10);
}

#[test]
fn first_batch_is_yielded_in_order_and_acknowledged() {
    let mut stream = UpdatesPoolStream::new(None, None);
    let request = expect_poll(stream.poll(Input::Pull));
    assert_eq!(request.cursor, None);
    assert_eq!(stream.phase(), Phase::Polling(Wait::Attempt));

    let delivered = Input::Attempt(AttemptOutcome::Delivered(batch(&[100, 101])));
    assert!(stream.accepts(&delivered));
    assert_eq!(expect_event(stream.poll(delivered)), 100);
    assert_eq!(stream.phase(), Phase::Idle);
    assert_eq!(stream.buffered(), 1);
    assert_eq!(stream.cursor(), Some(102));

    assert_eq!(expect_event(stream.poll(Input::Pull)), 101);
    assert_eq!(stream.buffered(), 0);

    let request = expect_poll(stream.poll(Input::Pull));
    assert_eq!(request.cursor, Some(102));
}

#[test]
fn rate_limit_twice_then_delivery() {
    let mut stream = UpdatesPoolStream::new(Some(3), None);
    let mut waited: u64 = 0;
    let mut cursors = Vec::new();

    cursors.push(expect_poll(stream.poll(Input::Pull)).cursor);
    for _ in 0..2 {
        let seconds = expect_sleep(stream.poll(Input::Attempt(AttemptOutcome::RateLimited(5))));
        assert_eq!(stream.phase(), Phase::Polling(Wait::Delay));
        assert_eq!(stream.cursor(), Some(3));
        waited += u64::from(seconds);
        cursors.push(expect_poll(stream.poll(Input::DelayElapsed)).cursor);
    }
    assert_eq!(waited, 10);
    assert_eq!(cursors, vec![Some(3), Some(3), Some(3)]);
    assert_eq!(stream.retries(), 0);

    let delivered = Input::Attempt(AttemptOutcome::Delivered(batch(&[7])));
    assert_eq!(expect_event(stream.poll(delivered)), 7);
    assert_eq!(stream.cursor(), Some(8));
    assert_eq!(expect_poll(stream.poll(Input::Pull)).cursor, Some(8));
}

#[test]
fn rate_limit_respects_the_hint() {
    let mut stream: UpdatesPoolStream<&'static str> = UpdatesPoolStream::new(Some(11), None);
    expect_poll(stream.poll(Input::Pull));
    assert_eq!(expect_sleep(stream.poll(Input::Attempt(AttemptOutcome::RateLimited(7)))), 7);
    // Nothing but the end of the delay makes the stream poll again.
    assert!(matches!(stream.poll(Input::Pull), Action::Pending));
    assert!(matches!(
        stream.poll(Input::Attempt(AttemptOutcome::Delivered(batch(&[50])))),
        Action::Pending
    ));
    assert_eq!(stream.phase(), Phase::Polling(Wait::Delay));
    assert_eq!(stream.cursor(), Some(11));
    assert_eq!(stream.buffered(), 0);
    let request = expect_poll(stream.poll(Input::DelayElapsed));
    assert_eq!(request.cursor, Some(11));
    assert_eq!(stream.phase(), Phase::Polling(Wait::Attempt));
}

#[test]
fn rate_limit_of_zero_seconds_is_retried_at_once() {
    let mut stream: UpdatesPoolStream<&'static str> = UpdatesPoolStream::new(Some(11), None);
    expect_poll(stream.poll(Input::Pull));
    let request = expect_poll(stream.poll(Input::Attempt(AttemptOutcome::RateLimited(0))));
    assert_eq!(request.cursor, Some(11));
    assert_eq!(stream.phase(), Phase::Polling(Wait::Attempt));
}

#[test]
fn malformed_payload_skips_one_event() {
    let mut stream: UpdatesPoolStream<&'static str> = UpdatesPoolStream::new(Some(5), None);
    expect_poll(stream.poll(Input::Pull));
    let invalid = Input::Attempt(AttemptOutcome::Invalid(Error::Serde("bad".to_string())));
    assert!(stream.accepts(&invalid));
    match stream.poll(invalid) {
        Action::Yield(Err(EngineError::MalformedPayload)) => {}
        other => panic!("{:?}", other),
    }
    assert_eq!(stream.phase(), Phase::Idle);
    assert_eq!(stream.cursor(), Some(6));
    assert_eq!(stream.retries(), 1);
    assert_eq!(expect_poll(stream.poll(Input::Pull)).cursor, Some(6));
}

#[test]
fn malformed_payload_without_a_cursor_leaves_it_unset() {
    let mut stream: UpdatesPoolStream<&'static str> = UpdatesPoolStream::new(None, None);
    expect_poll(stream.poll(Input::Pull));
    let invalid = Input::Attempt(AttemptOutcome::Invalid(Error::Serde("bad".to_string())));
    assert!(matches!(stream.poll(invalid), Action::Yield(Err(EngineError::MalformedPayload))));
    assert_eq!(stream.cursor(), None);
    assert_eq!(expect_poll(stream.poll(Input::Pull)).cursor, None);
}

#[test]
fn transient_error_is_surfaced_and_keeps_the_cursor() {
    let mut stream: UpdatesPoolStream<&'static str> = UpdatesPoolStream::new(Some(5), None);
    expect_poll(stream.poll(Input::Pull));
    let failed = Input::Attempt(AttemptOutcome::Transient(Error::Hyper("reset".to_string())));
    match stream.poll(failed) {
        Action::Yield(Err(EngineError::Upstream(Error::Hyper(text)))) => assert_eq!(text, "reset"),
        other => panic!("{:?}", other),
    }
    assert_eq!(stream.cursor(), Some(5));
    assert_eq!(stream.phase(), Phase::Idle);
    assert_eq!(expect_poll(stream.poll(Input::Pull)).cursor, Some(5));
}

#[test]
fn empty_batch_is_polled_again_with_the_same_cursor() {
    let mut stream: UpdatesPoolStream<&'static str> = UpdatesPoolStream::new(Some(8), None);
    let first = expect_poll(stream.poll(Input::Pull));
    for _ in 0..3 {
        let again = expect_poll(stream.poll(Input::Attempt(AttemptOutcome::Delivered(vec![]))));
        assert_eq!(again, first);
        assert_eq!(stream.cursor(), Some(8));
        assert_eq!(stream.phase(), Phase::Polling(Wait::Attempt));
        assert_eq!(stream.buffered(), 0);
    }
}

#[test]
fn timed_out_attempt_is_retried_at_once() {
    let mut stream: UpdatesPoolStream<&'static str> = UpdatesPoolStream::new(Some(8), None);
    let first = expect_poll(stream.poll(Input::Pull));
    let again = expect_poll(stream.poll(Input::Attempt(AttemptOutcome::AttemptTimedOut)));
    assert_eq!(again, first);
    assert_eq!(stream.retries(), 1);
    assert_eq!(expect_event(stream.poll(Input::Attempt(AttemptOutcome::Delivered(batch(&[8]))))), 8);
    assert_eq!(stream.retries(), 0);
}

#[test]
fn cancellation_during_a_delay_ends_the_stream() {
    let mut stream: UpdatesPoolStream<&'static str> = UpdatesPoolStream::new(Some(1), None);
    expect_poll(stream.poll(Input::Pull));
    expect_sleep(stream.poll(Input::Attempt(AttemptOutcome::RateLimited(30))));
    assert!(matches!(stream.poll(Input::Cancel), Action::End));
    assert!(stream.is_canceled());
    assert!(matches!(stream.poll(Input::DelayElapsed), Action::End));
    assert!(matches!(stream.poll(Input::Pull), Action::End));
    assert!(matches!(
        stream.poll(Input::Attempt(AttemptOutcome::Delivered(batch(&[1, 2])))),
        Action::End
    ));
    assert!(matches!(stream.poll(Input::Pull), Action::End));
    assert_eq!(stream.cursor(), Some(1));
    assert_eq!(stream.buffered(), 0);
    assert_eq!(stream.phase(), Phase::Cancelled);
}

#[test]
fn cancellation_during_an_attempt_discards_its_result() {
    let mut stream: UpdatesPoolStream<&'static str> = UpdatesPoolStream::new(None, None);
    expect_poll(stream.poll(Input::Pull));
    stream.cancel();
    assert!(stream.is_canceled());
    assert!(matches!(
        stream.poll(Input::Attempt(AttemptOutcome::Delivered(batch(&[4])))),
        Action::End
    ));
    assert_eq!(stream.cursor(), None);
}

#[test]
fn cancellation_with_events_in_the_buffer_yields_none_of_them() {
    let mut stream = UpdatesPoolStream::new(None, None);
    expect_poll(stream.poll(Input::Pull));
    assert_eq!(expect_event(stream.poll(Input::Attempt(AttemptOutcome::Delivered(batch(&[1, 2, 3]))))), 1);
    assert!(matches!(stream.poll(Input::Cancel), Action::End));
    assert!(matches!(stream.poll(Input::Pull), Action::End));
}

#[test]
fn inputs_that_are_not_awaited_change_nothing() {
    let mut stream: UpdatesPoolStream<&'static str> = UpdatesPoolStream::new(Some(2), None);
    assert!(matches!(stream.poll(Input::DelayElapsed), Action::Pending));
    assert!(matches!(
        stream.poll(Input::Attempt(AttemptOutcome::Delivered(batch(&[9])))),
        Action::Pending
    ));
    assert_eq!(stream.cursor(), Some(2));
    assert_eq!(stream.phase(), Phase::Idle);
    expect_poll(stream.poll(Input::Pull));
    assert!(matches!(stream.poll(Input::Pull), Action::Pending));
    assert!(matches!(stream.poll(Input::DelayElapsed), Action::Pending));
    assert_eq!(stream.phase(), Phase::Polling(Wait::Attempt));
}

#[test]
fn backoff_policy_delays_the_attempt_after_a_failure() {
    let policy = RetryPolicy::ExponentialBackoff { max_delay_cap: 4 };
    let mut stream: UpdatesPoolStream<&'static str> =
        UpdatesPoolStream::with_policy(Some(5), None, policy);
    expect_poll(stream.poll(Input::Pull));
    let mut delays = Vec::new();
    for _ in 0..4 {
        let failed = Input::Attempt(AttemptOutcome::Transient(Error::Hyper("down".to_string())));
        assert!(matches!(stream.poll(failed), Action::Yield(Err(EngineError::Upstream(_)))));
        delays.push(expect_sleep(stream.poll(Input::Pull)));
        assert_eq!(stream.phase(), Phase::Polling(Wait::Delay));
        assert_eq!(expect_poll(stream.poll(Input::DelayElapsed)).cursor, Some(5));
    }
    assert_eq!(delays, vec![1, 2, 4, 4]);
    assert_eq!(stream.retries(), 4);
    assert_eq!(expect_event(stream.poll(Input::Attempt(AttemptOutcome::Delivered(batch(&[5]))))), 5);
    assert_eq!(stream.retries(), 0);
    // After a success the next cycle starts without a delay.
    assert_eq!(expect_poll(stream.poll(Input::Pull)).cursor, Some(6));
}

#[test]
fn backoff_policy_skips_past_a_malformed_payload_behind_the_delay() {
    let policy = RetryPolicy::ExponentialBackoff { max_delay_cap: 60 };
    let mut stream: UpdatesPoolStream<&'static str> =
        UpdatesPoolStream::with_policy(Some(5), None, policy);
    expect_poll(stream.poll(Input::Pull));
    let invalid = Input::Attempt(AttemptOutcome::Invalid(Error::Serde("bad".to_string())));
    assert!(matches!(stream.poll(invalid), Action::Yield(Err(EngineError::MalformedPayload))));
    assert_eq!(expect_sleep(stream.poll(Input::Pull)), 1);
    assert_eq!(expect_poll(stream.poll(Input::DelayElapsed)).cursor, Some(6));
}

#[test]
fn backoff_policy_delays_the_retry_of_a_timed_out_attempt() {
    let policy = RetryPolicy::ExponentialBackoff { max_delay_cap: 60 };
    let mut stream: UpdatesPoolStream<&'static str> =
        UpdatesPoolStream::with_policy(None, None, policy);
    expect_poll(stream.poll(Input::Pull));
    assert_eq!(expect_sleep(stream.poll(Input::Attempt(AttemptOutcome::AttemptTimedOut))), 1);
    expect_poll(stream.poll(Input::DelayElapsed));
    assert_eq!(expect_sleep(stream.poll(Input::Attempt(AttemptOutcome::AttemptTimedOut))), 2);
}

#[test]
fn cursor_never_decreases_over_a_run() {
    let mut stream: UpdatesPoolStream<&'static str> = UpdatesPoolStream::new(None, None);
    let mut seen = vec![stream.cursor()];
    let inputs: Vec<Input<&'static str>> = vec![
        Input::Pull,
        Input::Attempt(AttemptOutcome::Delivered(vec![])),
        Input::Attempt(AttemptOutcome::AttemptTimedOut),
        Input::Attempt(AttemptOutcome::Delivered(batch(&[10, 11, 12]))),
        Input::Pull,
        Input::Pull,
        Input::Pull,
        Input::Attempt(AttemptOutcome::RateLimited(2)),
        Input::DelayElapsed,
        Input::Attempt(AttemptOutcome::Invalid(Error::Serde("bad".to_string()))),
        Input::Pull,
        Input::Attempt(AttemptOutcome::Transient(Error::Hyper("down".to_string()))),
        Input::Pull,
        Input::Attempt(AttemptOutcome::Delivered(batch(&[14, 20]))),
        Input::Cancel,
        Input::Pull,
    ];
    for input in inputs {
        assert!(stream.accepts(&input));
        stream.poll(input);
        seen.push(stream.cursor());
    }
    let rank = |c: &Option<i64>| c.map_or(i128::MIN, i128::from);
    assert!(seen.windows(2).all(|w| rank(&w[0]) <= rank(&w[1])));
    assert_eq!(
        seen,
        vec![
            None, None, None, None, Some(13), Some(13), Some(13), Some(13), Some(13), Some(13),
            Some(14), Some(14), Some(14), Some(14), Some(21), Some(21), Some(21),
        ]
    );
}

#[test]
fn accepts_refuses_what_the_cursor_cannot_follow() {
    let mut stream: UpdatesPoolStream<&'static str> = UpdatesPoolStream::new(Some(i64::MAX), None);
    let too_far = Input::Attempt(AttemptOutcome::Delivered(batch(&[i64::MAX])));
    let invalid = Input::Attempt(AttemptOutcome::Invalid(Error::Serde(String::new())));
    // While no attempt is awaited the inputs are ignored, so they are accepted.
    assert!(stream.accepts(&too_far));
    assert!(stream.accepts(&invalid));
    expect_poll(stream.poll(Input::Pull));
    assert!(!stream.accepts(&too_far));
    assert!(!stream.accepts(&invalid));
    assert!(stream.accepts(&Input::Attempt(AttemptOutcome::Delivered(batch(&[i64::MAX - 1])))));
    assert!(stream.accepts(&Input::Attempt(AttemptOutcome::Transient(Error::Hyper(String::new())))));
    assert!(stream.accepts(&Input::Cancel));
}

#[test]
fn offer_hands_back_what_the_stream_cannot_take() {
    let mut stream: UpdatesPoolStream<&'static str> = UpdatesPoolStream::new(Some(4), None);
    expect_poll(stream.offer(Input::Pull).unwrap());
    match stream.offer(Input::Attempt(AttemptOutcome::Delivered(batch(&[5, i64::MAX])))) {
        Err(Input::Attempt(AttemptOutcome::Delivered(events))) => {
            assert_eq!(events.len(), 2);
            assert_eq!(events[1].event_id, i64::MAX);
        }
        other => panic!("{:?}", other),
    }
    assert_eq!(stream.cursor(), Some(4));
    assert_eq!(stream.phase(), Phase::Polling(Wait::Attempt));
    assert_eq!(stream.buffered(), 0);
    let delivered = stream.offer(Input::Attempt(AttemptOutcome::Delivered(batch(&[5, 6]))));
    assert_eq!(expect_event(delivered.unwrap()), 5);
    assert_eq!(stream.cursor(), Some(7));
}

#[test]
fn feed_surfaces_what_the_stream_cannot_take() {
    let mut stream: UpdatesPoolStream<&'static str> = UpdatesPoolStream::new(Some(4), None);
    expect_poll(stream.feed(Input::Pull));
    match stream.feed(Input::Attempt(AttemptOutcome::Delivered(batch(&[5, i64::MAX])))) {
        Action::Yield(Err(EngineError::Upstream(Error::RequestBuilt(text)))) => {
            assert_eq!(text, OUT_OF_RANGE)
        }
        other => panic!("{:?}", other),
    }
    assert_eq!(stream.cursor(), Some(4));
    assert_eq!(stream.phase(), Phase::Idle);
    assert_eq!(stream.buffered(), 0);
    assert_eq!(stream.retries(), 1);
    assert_eq!(expect_poll(stream.feed(Input::Pull)).cursor, Some(4));
    assert_eq!(
        expect_event(stream.feed(Input::Attempt(AttemptOutcome::Delivered(batch(&[5, 6]))))),
        5
    );
    assert_eq!(stream.cursor(), Some(7));
    assert_eq!(expect_event(stream.feed(Input::Pull)), 6);
}

#[test]
fn feed_surfaces_an_unreadable_answer_at_the_last_cursor() {
    let mut stream: UpdatesPoolStream<&'static str> = UpdatesPoolStream::new(Some(i64::MAX), None);
    expect_poll(stream.feed(Input::Pull));
    let invalid = Input::Attempt(AttemptOutcome::Invalid(Error::Serde("bad".to_string())));
    match stream.feed(invalid) {
        Action::Yield(Err(EngineError::Upstream(Error::RequestBuilt(text)))) => {
            assert_eq!(text, OUT_OF_RANGE)
        }
        other => panic!("{:?}", other),
    }
    assert_eq!(stream.cursor(), Some(i64::MAX));
    assert_eq!(stream.phase(), Phase::Idle);
}

#[test]
fn feed_takes_what_poll_takes() {
    let mut stream: UpdatesPoolStream<&'static str> = UpdatesPoolStream::new(Some(5), None);
    expect_poll(stream.feed(Input::Pull));
    let invalid = Input::Attempt(AttemptOutcome::Invalid(Error::Serde("bad".to_string())));
    assert!(matches!(stream.feed(invalid), Action::Yield(Err(EngineError::MalformedPayload))));
    assert_eq!(stream.cursor(), Some(6));
    assert!(matches!(stream.feed(Input::Cancel), Action::End));
    assert!(matches!(stream.feed(Input::Pull), Action::End));
}

#[test]
fn poll_request_carries_the_filter() {
    let filter = EventFilter::from_slice(&[
        AllowedUpdate::CallbackQuery,
        AllowedUpdate::Message,
        AllowedUpdate::CallbackQuery,
    ]);
    let mut stream: UpdatesPoolStream<&'static str> = UpdatesPoolStream::new(None, Some(filter));
    let request = expect_poll(stream.poll(Input::Pull));
    assert_eq!(request.event_filter, Some(filter));
    assert_eq!(
        request.allowed_updates(),
        Some(vec![AllowedUpdate::Message, AllowedUpdate::CallbackQuery])
    );
    let kinds = request.allowed_updates();
    let wire = request.get_updates(kinds.as_deref());
    assert_eq!(wire.offset, None);
    assert_eq!(wire.limit, None);
    assert_eq!(wire.timeout, Some(10));
    assert_eq!(wire.allowed_updates, Some(&[AllowedUpdate::Message, AllowedUpdate::CallbackQuery][..]));
}

#[test]
fn event_filter_is_a_set() {
    let mut filter = EventFilter::empty();
    assert!(!filter.contains(AllowedUpdate::Message));
    assert!(filter.to_vec().is_empty());
    filter.insert(AllowedUpdate::PreCheckoutQuery);
    filter.insert(AllowedUpdate::EditedMessage);
    filter.insert(AllowedUpdate::PreCheckoutQuery);
    assert!(filter.contains(AllowedUpdate::EditedMessage));
    assert!(filter.contains(AllowedUpdate::PreCheckoutQuery));
    assert!(!filter.contains(AllowedUpdate::ShippingQuery));
    assert_eq!(
        filter.to_vec(),
        vec![AllowedUpdate::EditedMessage, AllowedUpdate::PreCheckoutQuery]
    );
    let all = EventFilter::from_slice(&[
        AllowedUpdate::PreCheckoutQuery,
        AllowedUpdate::ShippingQuery,
        AllowedUpdate::CallbackQuery,
        AllowedUpdate::ChosenInlineResult,
        AllowedUpdate::InlineQuery,
        AllowedUpdate::EditedChannelPost,
        AllowedUpdate::ChannelPost,
        AllowedUpdate::EditedMessage,
        AllowedUpdate::Message,
    ]);
    assert_eq!(
        all.to_vec(),
        vec![
            AllowedUpdate::Message,
            AllowedUpdate::EditedMessage,
            AllowedUpdate::ChannelPost,
            AllowedUpdate::EditedChannelPost,
            AllowedUpdate::InlineQuery,
            AllowedUpdate::ChosenInlineResult,
            AllowedUpdate::CallbackQuery,
            AllowedUpdate::ShippingQuery,
            AllowedUpdate::PreCheckoutQuery,
        ]
    );
    assert_eq!(EventFilter::from_slice(&[]), EventFilter::empty());
}
