use vstd::prelude::*;
use crate::event::{AgentEvent, EventModel};

verus! {

/// An ordered, append-only buffer of events, emptied only by draining.
pub struct EventBus {
    events: Vec<AgentEvent>,
}

impl View for EventBus {
    type V = Seq<EventModel>;

    /// The pending events, oldest first.
    closed spec fn view(&self) -> Seq<EventModel> {
        self.events@.map_values(|e: AgentEvent| e@)
    }
}

impl EventBus {
    /// An empty bus.
    pub fn new() -> (r: EventBus)
        ensures
            r@ == Seq::<EventModel>::empty(),
    {
        let r = EventBus { events: Vec::new() };
        assert(r@ =~= Seq::<EventModel>::empty());
        r
    }

    /// Appends `e` after every pending event.
    pub fn push(&mut self, e: AgentEvent)
        ensures
            final(self)@ == old(self)@.push(e@),
    {
        self.events.push(e);
        assert(self@ =~= old(self)@.push(e@));
    }

    /// Discards every pending event.
    pub fn clear(&mut self)
        ensures
            final(self)@ == Seq::<EventModel>::empty(),
    {
        self.events.clear();
        assert(self@ =~= Seq::<EventModel>::empty());
    }

    /// Removes every pending event and returns them in the order they were
    /// pushed.
    pub fn drain(&mut self) -> (r: Vec<AgentEvent>)
        ensures
            (r@.map_values(|e: AgentEvent| e@), final(self)@) == drained(old(self)@),
    {
        let mut r: Vec<AgentEvent> = Vec::new();
        std::mem::swap(&mut r, &mut self.events);
        assert(self@ =~= Seq::<EventModel>::empty());
        assert(r@.map_values(|e: AgentEvent| e@) =~= old(self)@);
        r
    }

    /// The number of pending events.
    pub fn len(&self) -> (r: usize)
        ensures
            r == self@.len(),
    {
        self.events.len()
    }
}

/// The result of draining a bus whose pending events are `s`, and what the bus
/// then holds.
pub open spec fn drained(s: Seq<EventModel>) -> (Seq<EventModel>, Seq<EventModel>) {
    (s, Seq::empty())
}

/// Draining twice with nothing pushed in between yields nothing the second
/// time, and the bus stays empty.
pub proof fn lemma_drain_twice(s: Seq<EventModel>)
    ensures
        drained(drained(s).1).0 == Seq::<EventModel>::empty(),
        drained(drained(s).1).1 == Seq::<EventModel>::empty(),
{
}

} // verus!
