//! The ordered queue between the session and the consumer of its events.

use crate::error::GatewayError;
use crate::gateway::event_data::{EventView, GatewayEvent};
use vstd::prelude::*;

verus! {

/// A first-in, first-out queue of events.
///
/// Without a capacity the feed grows as long as the consumer lags behind.
/// With a capacity it holds at most that many events, and publishing to a
/// full feed drops the oldest one.
#[derive(Debug)]
pub struct EventFeed {
    queue: Vec<GatewayEvent>,
    capacity: Option<usize>,
}

/// The events in a queue, by their views.
pub open spec fn views_of(queue: Seq<GatewayEvent>) -> Seq<EventView> {
    queue.map_values(|ev: GatewayEvent| ev@)
}

/// The queue after one more event was published under a capacity.
pub open spec fn published(events: Seq<EventView>, capacity: Option<usize>, ev: EventView) -> Seq<
    EventView,
> {
    match capacity {
        Some(c) => if events.len() >= c && events.len() > 0 {
            events.drop_first().push(ev)
        } else {
            events.push(ev)
        },
        None => events.push(ev),
    }
}

impl View for EventFeed {
    type V = Seq<EventView>;

    closed spec fn view(&self) -> Seq<EventView> {
        views_of(self.queue@)
    }
}

impl EventFeed {
    /// The most events the feed holds, if it is bounded.
    pub closed spec fn spec_capacity(&self) -> Option<usize> {
        self.capacity
    }

    /// A bounded feed is never over its capacity, which is at least one.
    pub closed spec fn wf(&self) -> bool {
        self.capacity matches Some(c) ==> c >= 1 && self.queue@.len() <= c
    }

    /// An empty feed that never drops an event.
    pub fn unbounded() -> (r: EventFeed)
        ensures
            r@ == Seq::<EventView>::empty(),
            r.spec_capacity() is None,
            r.wf(),
    {
        let r = EventFeed { queue: Vec::new(), capacity: None };
        assert(r@ =~= Seq::<EventView>::empty());
        r
    }

    /// An empty feed that holds at most `capacity` events and drops the
    /// oldest one to make room. A capacity of zero is rejected.
    pub fn drop_oldest(capacity: usize) -> (r: Option<EventFeed>)
        ensures
            capacity == 0 <==> r is None,
            r matches Some(feed) ==> feed@ == Seq::<EventView>::empty() && feed.spec_capacity()
                == Some(capacity) && feed.wf(),
    {
        if capacity == 0 {
            None
        } else {
            let feed = EventFeed { queue: Vec::new(), capacity: Some(capacity) };
            assert(feed@ =~= Seq::<EventView>::empty());
            Some(feed)
        }
    }

    /// The most events the feed holds, if it is bounded.
    #[verifier::when_used_as_spec(spec_capacity)]
    pub fn capacity(&self) -> (r: Option<usize>)
        ensures
            r == self.spec_capacity(),
    {
        self.capacity
    }

    /// How many events wait in the feed.
    pub fn len(&self) -> (r: usize)
        ensures
            r == self@.len(),
    {
        self.queue.len()
    }

    /// Whether no event waits in the feed.
    pub fn is_empty(&self) -> (r: bool)
        ensures
            r == (self@.len() == 0),
    {
        self.queue.len() == 0
    }

    /// Appends an event. A bounded feed that is full first drops its
    /// oldest event and hands it back.
    pub fn publish(&mut self, ev: GatewayEvent) -> (dropped: Option<GatewayEvent>)
        requires
            old(self).wf(),
        ensures
            final(self).wf(),
            final(self).spec_capacity() == old(self).spec_capacity(),
            final(self)@ == published(old(self)@, old(self).spec_capacity(), ev@),
            match dropped {
                Some(oldest) => old(self)@.len() > 0 && oldest@ == old(self)@[0] && final(self)@.len() == old(self)@.len(),
                None => final(self)@.len() == old(self)@.len() + 1,
            },
    {
        let full = match self.capacity {
            Some(c) => self.queue.len() >= c,
            None => false,
        };
        if full {
            let ghost before = self.queue@;
            let oldest = self.queue.remove(0);
            self.queue.push(ev);
            assert(views_of(self.queue@) =~= views_of(before).drop_first().push(ev@));
            Some(oldest)
        } else {
            let ghost before = self.queue@;
            self.queue.push(ev);
            assert(views_of(self.queue@) =~= views_of(before).push(ev@));
            None
        }
    }

    /// Takes the oldest event out of the feed, or fails with
    /// [`GatewayError::NoData`] where the feed is empty.
    pub fn next_event(&mut self) -> (r: Result<GatewayEvent, GatewayError>)
        requires
            old(self).wf(),
        ensures
            final(self).wf(),
            final(self).spec_capacity() == old(self).spec_capacity(),
            match r {
                Ok(ev) => old(self)@.len() > 0 && ev@ == old(self)@[0] && final(self)@ == old(self)@.drop_first(),
                Err(e) => e == GatewayError::NoData && old(self)@.len() == 0 && final(self)@
                    == old(self)@,
            },
    {
        if self.queue.len() == 0 {
            Err(GatewayError::NoData)
        } else {
            let ghost before = self.queue@;
            let ev = self.queue.remove(0);
            assert(views_of(self.queue@) =~= views_of(before).drop_first());
            Ok(ev)
        }
    }
}

/// Events leave a feed that never dropped one in the order in which they
/// were published.
pub proof fn lemma_feed_is_first_in_first_out(events: Seq<EventView>, ev: EventView)
    ensures
        published(events, None, ev).len() == events.len() + 1,
        published(events, None, ev).last() == ev,
        events.len() > 0 ==> published(events, None, ev)[0] == events[0],
        events.len() > 0 ==> published(events, None, ev).drop_first() == published(
            events.drop_first(),
            None,
            ev,
        ),
{
    if events.len() > 0 {
        assert(events.push(ev).drop_first() =~= events.drop_first().push(ev));
    }
}

/// A bounded feed never holds more than its capacity.
pub proof fn lemma_bounded_feed_stays_bounded(events: Seq<EventView>, capacity: usize, ev: EventView)
    requires
        capacity >= 1,
        events.len() <= capacity,
    ensures
        published(events, Some(capacity), ev).len() <= capacity,
        published(events, Some(capacity), ev).last() == ev,
{
}

} // verus!
