//! In-memory event store for development and testing.

use vstd::prelude::*;
use crate::event::CanonicalEvent;

verus! {

/// In-memory event store for development and testing.
pub struct InMemoryEventStore {
    events: Vec<CanonicalEvent>,
}

impl View for InMemoryEventStore {
    type V = Seq<CanonicalEvent>;

    closed spec fn view(&self) -> Seq<CanonicalEvent> {
        self.events@
    }
}

impl InMemoryEventStore {
    pub fn new() -> (r: Self)
        ensures
            r@.len() == 0,
    {
        Self { events: Vec::new() }
    }

    /// Appends an event.
    pub fn store(&mut self, event: CanonicalEvent)
        ensures
            final(self)@ == old(self)@.push(event),
    {
        self.events.push(event);
    }

    /// Copies of all stored events, in the order they were stored.
    pub fn all(&self) -> (r: Vec<CanonicalEvent>)
        ensures
            r@.len() == self@.len(),
            forall|i: int| 0 <= i < r@.len() ==> (#[trigger] r@[i]).same_as(&self@[i]),
    {
        let mut out: Vec<CanonicalEvent> = Vec::new();
        let mut i: usize = 0;
        while i < self.events.len()
            invariant
                i <= self.events@.len(),
                out@.len() == i,
                forall|j: int| 0 <= j < i ==> (#[trigger] out@[j]).same_as(&self.events@[j]),
            decreases self.events.len() - i,
        {
            out.push(self.events[i].duplicate());
            i = i + 1;
        }
        out
    }

    /// Number of stored events.
    pub fn count(&self) -> (r: usize)
        ensures
            r == self@.len(),
    {
        self.events.len()
    }

    /// Removes every event.
    pub fn clear(&mut self)
        ensures
            final(self)@.len() == 0,
    {
        self.events.clear();
    }
}

impl Default for InMemoryEventStore {
    fn default() -> (r: Self)
        ensures
            r@.len() == 0,
    {
        Self::new()
    }
}

} // verus!
