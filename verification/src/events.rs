//! The event queue: renderer-originated occurrences, produced externally and
//! consumed first-in first-out by polling requests.  Each event is delivered
//! to at most one poller.

use vstd::prelude::*;
use crate::types::Event;

verus! {

/// A first-in first-out queue of renderer events.  Its model is the sequence
/// of undelivered events, oldest first.
#[derive(Clone, Debug)]
pub struct EventQueue {
    pub events: Vec<Event>,
}

impl View for EventQueue {
    type V = Seq<Event>;

    open spec fn view(&self) -> Seq<Event> {
        self.events@
    }
}

impl EventQueue {
    /// An empty queue.
    pub fn new() -> (q: EventQueue)
        ensures
            q@ == Seq::<Event>::empty(),
    {
        EventQueue { events: Vec::new() }
    }

    /// How many events are waiting.
    pub fn len(&self) -> (n: usize)
        ensures
            n == self@.len(),
    {
        self.events.len()
    }

    /// Enqueues one event at the back.
    pub fn push(&mut self, e: Event)
        ensures
            final(self)@ == old(self)@.push(e),
    {
        self.events.push(e);
    }

    /// Dequeues the oldest event, if any: `Some` exactly when the queue was
    /// non-empty, and then the head is removed and returned.
    pub fn pop(&mut self) -> (r: Option<Event>)
        ensures
            old(self)@.len() == 0 ==> r is None && final(self)@ == old(self)@,
            old(self)@.len() > 0 ==> r == Some(old(self)@[0])
                && final(self)@ == old(self)@.drop_first(),
    {
        if self.events.len() == 0 {
            None
        } else {
            let ghost pre = self.events@;
            let e = self.events.remove(0);
            proof {
                assert(self.events@ =~= pre.drop_first());
            }
            Some(e)
        }
    }
}

} // verus!
