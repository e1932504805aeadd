use crate::cursor::Event;
use std::collections::VecDeque;
use vstd::prelude::*;

verus! {

/// Holds the events of delivered batches and yields them one at a time, in
/// the order in which the upstream sent them.
pub struct Sequencer<P> {
    queue: VecDeque<Event<P>>,
}

impl<P> View for Sequencer<P> {
    type V = Seq<Event<P>>;

    /// The events that wait to be yielded, the next one first.
    closed spec fn view(&self) -> Seq<Event<P>> {
        self.queue@
    }
}

impl<P> Sequencer<P> {
    /// A buffer that holds nothing.
    pub fn new() -> (buffer: Sequencer<P>)
        ensures
            buffer@ == Seq::<Event<P>>::empty(),
    {
        Sequencer { queue: VecDeque::new() }
    }

    /// The number of events that wait to be yielded.
    pub fn len(&self) -> (n: usize)
        ensures
            n == self@.len(),
    {
        self.queue.len()
    }

    /// True when no event waits to be yielded.
    pub fn is_empty(&self) -> (empty: bool)
        ensures
            empty == (self@.len() == 0),
    {
        self.queue.len() == 0
    }

    /// Puts the events of `batch` behind those that already wait, keeping
    /// their order.
    pub fn load(&mut self, batch: Vec<Event<P>>)
        ensures
            final(self)@ == old(self)@ + batch@,
    {
        let ghost before = self.queue@;
        let ghost items = batch@;
        for event in iter: batch
            invariant
                iter.seq() == items,
                self.queue@ == before + items.take(iter.index()),
        {
            proof {
                assert(items.take(iter.index() + 1) =~= items.take(iter.index()).push(
                    items[iter.index()],
                ));
            }
            self.queue.push_back(event);
        }
        proof {
            assert(items.take(items.len() as int) =~= items);
        }
    }

    /// Takes the event that waits longest out of the buffer, or returns
    /// `None` and leaves the buffer as it is when nothing waits.
    pub fn pop_front(&mut self) -> (event: Option<Event<P>>)
        ensures
            match event {
                Some(first) => old(self)@.len() > 0 && first == old(self)@[0] && final(self)@
                    == old(self)@.drop_first(),
                None => old(self)@.len() == 0 && final(self)@ == old(self)@,
            },
    {
        let event = self.queue.pop_front();
        proof {
            if event is Some {
                assert(old(self).queue@.subrange(1, old(self).queue@.len() as int) =~= old(
                    self,
                ).queue@.drop_first());
            }
        }
        event
    }
}

} // verus!
