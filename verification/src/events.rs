//! The event router: the single channel through which activated custom menu
//! items reach application code.
//!
//! Producers publish a `MenuEvent` whenever a custom item is activated; the
//! one consumer drains them in publish order. Publishing never fails and is
//! never retried; a dropped event has no recovery action, so delivery is
//! best-effort by design.

use vstd::prelude::*;

verus! {

/// The sole payload delivered to application code: the identifier of the
/// activated menu item.
#[derive(Clone, Copy, Debug, PartialEq, Eq, Structural)]
pub struct MenuEvent {
    pub id: u64,
}

/// A process-scoped first-in-first-out queue of menu events with one
/// consumer. Events come out in exactly the order they were published.
pub struct EventRouter {
    pending: Vec<MenuEvent>,
    delivered: Ghost<Seq<MenuEvent>>,
}

impl EventRouter {
    /// Events published but not yet consumed, oldest first.
    pub closed spec fn pending_events(&self) -> Seq<MenuEvent> {
        self.pending@
    }

    /// Events already handed to the consumer, oldest first.
    pub closed spec fn delivered_events(&self) -> Seq<MenuEvent> {
        self.delivered@
    }

    /// Everything ever published, oldest first.
    pub open spec fn published_events(&self) -> Seq<MenuEvent> {
        self.delivered_events() + self.pending_events()
    }

    pub fn new() -> (r: EventRouter)
        ensures
            r.pending_events() == Seq::<MenuEvent>::empty(),
            r.delivered_events() == Seq::<MenuEvent>::empty(),
    {
        EventRouter { pending: Vec::new(), delivered: Ghost(Seq::empty()) }
    }

    /// Publishes one event at the tail of the queue. Cannot fail: a consumer
    /// that has stopped listening simply never drains the queue.
    pub fn send(&mut self, event: MenuEvent)
        ensures
            final(self).pending_events() == old(self).pending_events().push(event),
            final(self).delivered_events() == old(self).delivered_events(),
            final(self).published_events() == old(self).published_events().push(event),
    {
        self.pending.push(event);
        proof {
            assert(self.published_events() =~= old(self).published_events().push(event));
        }
    }

    /// Hands the oldest pending event to the consumer, or reports that the
    /// queue is empty.
    pub fn try_recv(&mut self) -> (r: Option<MenuEvent>)
        ensures
            old(self).pending_events().len() == 0 ==> {
                &&& r is None
                &&& final(self).pending_events() == old(self).pending_events()
                &&& final(self).delivered_events() == old(self).delivered_events()
            },
            old(self).pending_events().len() > 0 ==> {
                &&& r == Some(old(self).pending_events()[0])
                &&& final(self).pending_events() == old(self).pending_events().drop_first()
                &&& final(self).delivered_events() == old(self).delivered_events().push(
                    old(self).pending_events()[0],
                )
            },
            final(self).published_events() == old(self).published_events(),
    {
        if self.pending.len() == 0 {
            None
        } else {
            let event = self.pending.remove(0);
            proof {
                self.delivered@ = self.delivered@.push(event);
                assert(self.pending_events() =~= old(self).pending_events().drop_first());
                assert(self.published_events() =~= old(self).published_events());
            }
            Some(event)
        }
    }
}

/// Delivery is strictly first-in-first-out: at every point, what the
/// consumer has seen is exactly the oldest prefix of everything published,
/// in publish order, and what is still pending is the rest.
pub proof fn lemma_delivery_in_publish_order(r: &EventRouter)
    ensures
        r.delivered_events() == r.published_events().take(r.delivered_events().len() as int),
        r.pending_events() == r.published_events().skip(r.delivered_events().len() as int),
{
    assert(r.delivered_events() =~= r.published_events().take(r.delivered_events().len() as int));
    assert(r.pending_events() =~= r.published_events().skip(r.delivered_events().len() as int));
}

} // verus!
