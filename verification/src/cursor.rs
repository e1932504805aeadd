use vstd::prelude::*;

verus! {

/// One inbound item of the upstream API: an opaque payload and the
/// identifier by which the upstream orders its events.
#[derive(Debug, Clone)]
pub struct Event<P> {
    /// Identifier of the event; the upstream hands them out in ascending order.
    pub event_id: i64,
    /// What the event carries.
    pub payload: P,
}

/// The largest identifier among `events`; meaningful for a non-empty sequence.
pub open spec fn max_event_id<P>(events: Seq<Event<P>>) -> int
    decreases events.len(),
{
    if events.len() <= 1 {
        events[0].event_id as int
    } else {
        let rest = max_event_id(events.drop_last());
        if events.last().event_id > rest {
            events.last().event_id as int
        } else {
            rest
        }
    }
}

/// The cursor after a batch was delivered: one past the largest identifier of
/// a non-empty batch, the current cursor for an empty one.
pub open spec fn advanced<P>(current: Option<i64>, events: Seq<Event<P>>) -> Option<i64> {
    if events.len() == 0 {
        current
    } else {
        Some((max_event_id(events) + 1) as i64)
    }
}

/// The cursor after an unreadable payload: one past the last known position,
/// or still unset when no position is known.
pub open spec fn skipped(current: Option<i64>) -> Option<i64> {
    match current {
        Some(c) => Some((c + 1) as i64),
        None => None,
    }
}

/// The order of cursors: an unset cursor comes before every position.
pub open spec fn cursor_le(a: Option<i64>, b: Option<i64>) -> bool {
    match (a, b) {
        (None, _) => true,
        (Some(_), None) => false,
        (Some(x), Some(y)) => x <= y,
    }
}

/// Every identifier of `events` leaves room for a cursor behind it.
pub open spec fn ids_below_limit<P>(events: Seq<Event<P>>) -> bool {
    forall|i: int| 0 <= i < events.len() ==> (#[trigger] events[i]).event_id < i64::MAX
}

/// No event of `events` lies before the position that `cursor` asks for.
pub open spec fn at_or_after<P>(cursor: Option<i64>, events: Seq<Event<P>>) -> bool {
    cursor matches Some(c) ==> forall|i: int|
        0 <= i < events.len() ==> (#[trigger] events[i]).event_id >= c
}

/// `max_event_id` is an identifier of the batch and bounds all of them.
pub proof fn lemma_max_event_id<P>(events: Seq<Event<P>>)
    requires
        events.len() > 0,
    ensures
        exists|i: int| 0 <= i < events.len() && (#[trigger] events[i]).event_id == max_event_id(events),
        forall|i: int| 0 <= i < events.len() ==> (#[trigger] events[i]).event_id <= max_event_id(events),
    decreases events.len(),
{
    if events.len() == 1 {
        assert(events[0].event_id == max_event_id(events));
    } else {
        let init = events.drop_last();
        lemma_max_event_id(init);
        let k = choose|i: int| 0 <= i < init.len() && (#[trigger] init[i]).event_id == max_event_id(init);
        assert(init[k] == events[k]);
        if events.last().event_id > max_event_id(init) {
            assert(events[events.len() - 1].event_id == max_event_id(events));
        } else {
            assert(events[k].event_id == max_event_id(events));
        }
        assert forall|i: int| 0 <= i < events.len() implies (#[trigger] events[i]).event_id
            <= max_event_id(events) by {
            if i < init.len() {
                assert(init[i] == events[i]);
            }
        }
    }
}

/// Tells whether every identifier of `events` leaves room for a cursor
/// behind it, which is what `advance` asks of a batch.
pub fn leave_room<P>(events: &Vec<Event<P>>) -> (fits: bool)
    ensures
        fits == ids_below_limit(events@),
{
    let mut i: usize = 0;
    while i < events.len()
        invariant
            i <= events.len(),
            forall|j: int| 0 <= j < i ==> (#[trigger] events@[j]).event_id < i64::MAX,
        decreases events.len() - i,
    {
        if events[i].event_id == i64::MAX {
            assert(events@[i as int].event_id == i64::MAX);
            return false;
        }
        i = i + 1;
    }
    true
}

/// Computes the cursor that follows a delivered batch.
pub fn advance<P>(current: Option<i64>, events: &Vec<Event<P>>) -> (next: Option<i64>)
    requires
        ids_below_limit(events@),
    ensures
        next == advanced(current, events@),
        events@.len() == 0 ==> next == current,
        events@.len() > 0 ==> next is Some && (exists|i: int|
            0 <= i < events@.len() && next->0 == (#[trigger] events@[i]).event_id + 1) && (forall|
            i: int,
        | 0 <= i < events@.len() ==> (#[trigger] events@[i]).event_id < next->0),
{
    if events.len() == 0 {
        return current;
    }
    let mut largest: i64 = events[0].event_id;
    let mut i: usize = 1;
    assert(events@.take(1).len() == 1);
    while i < events.len()
        invariant
            1 <= i <= events.len(),
            largest == max_event_id(events@.take(i as int)),
        decreases events.len() - i,
    {
        proof {
            let longer = events@.take(i as int + 1);
            assert(longer.drop_last() =~= events@.take(i as int));
            assert(longer.last() == events@[i as int]);
        }
        if events[i].event_id > largest {
            largest = events[i].event_id;
        }
        i = i + 1;
    }
    proof {
        assert(events@.take(i as int) =~= events@);
        lemma_max_event_id(events@);
    }
    Some(largest + 1)
}

/// Moves the cursor past one unreadable event.
pub fn skip_malformed(current: Option<i64>) -> (next: Option<i64>)
    requires
        current != Some(i64::MAX),
    ensures
        next == skipped(current),
        current is None ==> next is None,
        current matches Some(c) ==> next == Some((c + 1) as i64),
{
    match current {
        Some(c) => Some(c + 1),
        None => None,
    }
}

} // verus!
