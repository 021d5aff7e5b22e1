//! The build event bus: a broadcast log with any number of independent
//! subscribers. Publishing appends to the log; a subscriber holds a cursor
//! into the log, set at registration, and observes exactly the events
//! published after it registered, in publish order.

use vstd::prelude::*;

use crate::events::BuildEvent;

verus! {

/// The events a subscriber with the given cursor has yet to observe.
pub open spec fn observed(log: Seq<BuildEvent>, cursor: int) -> Seq<BuildEvent> {
    if 0 <= cursor <= log.len() {
        log.subrange(cursor, log.len() as int)
    } else {
        Seq::empty()
    }
}

/// The multi-producer, multi-consumer notification channel for build
/// lifecycle events. Publishing never fails: with no subscriber the event
/// simply stays unobserved.
pub struct EventBus {
    pub log: Vec<BuildEvent>,
}

/// A receive handle on the bus: observes every event published after the
/// handle was created, in publish order.
pub struct Subscriber {
    pub cursor: usize,
}

impl View for EventBus {
    type V = Seq<BuildEvent>;

    open spec fn view(&self) -> Seq<BuildEvent> {
        self.log@
    }
}

impl EventBus {
    pub fn new() -> (r: EventBus)
        ensures
            r@ == Seq::<BuildEvent>::empty(),
    {
        let r = EventBus { log: Vec::new() };
        proof {
            assert(r@ =~= Seq::<BuildEvent>::empty());
        }
        r
    }

    /// Append an event to the log. Never blocks and never fails.
    pub fn publish(&mut self, e: BuildEvent)
        ensures
            final(self)@ == old(self)@.push(e),
    {
        self.log.push(e);
    }

    /// Register a new independent consumer: it will observe exactly the
    /// events published from this point on.
    pub fn subscribe(&self) -> (s: Subscriber)
        ensures
            s.cursor == self@.len(),
            observed(self@, s.cursor as int) == Seq::<BuildEvent>::empty(),
    {
        let s = Subscriber { cursor: self.log.len() };
        proof {
            assert(observed(self@, s.cursor as int) =~= Seq::<BuildEvent>::empty());
        }
        s
    }
}

impl Subscriber {
    /// Take the next unobserved event, advancing the cursor; `None` when
    /// every published event has been observed.
    pub fn poll(&mut self, bus: &EventBus) -> (r: Option<BuildEvent>)
        requires
            old(self).cursor <= bus@.len(),
        ensures
            old(self).cursor < bus@.len() ==> r == Some(bus@[old(self).cursor as int])
                && final(self).cursor == old(self).cursor + 1,
            old(self).cursor == bus@.len() ==> r is None && final(self).cursor == old(
                self,
            ).cursor,
    {
        if self.cursor < bus.log.len() {
            let e = bus.log[self.cursor].clone();
            self.cursor = self.cursor + 1;
            Some(e)
        } else {
            None
        }
    }
}

/// Law: after events `post` are published on a bus whose log was `pre`, a
/// subscriber registered before them observes exactly `post`, in publish
/// order, while one registered afterwards observes none of them.
pub proof fn lemma_observed_append(pre: Seq<BuildEvent>, post: Seq<BuildEvent>)
    ensures
        observed(pre + post, pre.len() as int) == post,
        observed(pre + post, (pre + post).len() as int) == Seq::<BuildEvent>::empty(),
{
    assert(observed(pre + post, pre.len() as int) =~= post);
    assert(observed(pre + post, (pre + post).len() as int) =~= Seq::<BuildEvent>::empty());
}

} // verus!
