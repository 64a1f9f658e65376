//! The bounded queue between the listener's read loop and the user
//! interface. Publishing never waits: when the queue is full the oldest
//! unread event makes room and a counter records the loss.

use std::collections::VecDeque;
use vstd::prelude::*;
use crate::event::{Event, EventView};

verus! {

/// The last `n` elements of `s`, or all of `s` if it has fewer.
pub open spec fn keep_last<T>(s: Seq<T>, n: nat) -> Seq<T> {
    if s.len() <= n {
        s
    } else {
        s.subrange(s.len() - n, s.len() as int)
    }
}

/// `count` raised by `by`, stopping at the largest value a 64-bit counter holds.
pub open spec fn saturating_count(count: nat, by: nat) -> nat {
    if count + by <= u64::MAX {
        count + by
    } else {
        u64::MAX as nat
    }
}

/// How many of `total` events find no room in a queue of capacity `capacity`.
pub open spec fn overflow(total: nat, capacity: nat) -> nat {
    if total > capacity {
        (total - capacity) as nat
    } else {
        0
    }
}

/// A bus as a mathematical value.
pub struct BusView {
    /// The unread events, oldest first.
    pub pending: Seq<EventView>,
    /// How many unread events the bus holds at most.
    pub capacity: nat,
    /// How many events were discarded unread.
    pub dropped: nat,
}

impl BusView {
    /// The bus after one event was published.
    pub open spec fn publish(self, event: EventView) -> BusView {
        BusView {
            pending: keep_last(self.pending.push(event), self.capacity),
            capacity: self.capacity,
            dropped: if self.pending.len() < self.capacity {
                self.dropped
            } else {
                saturating_count(self.dropped, 1)
            },
        }
    }

    /// The bus after the events of `events` were published in order.
    pub open spec fn publish_all(self, events: Seq<EventView>) -> BusView
        decreases events.len(),
    {
        if events.len() == 0 {
            self
        } else {
            self.publish_all(events.drop_last()).publish(events.last())
        }
    }

    /// Whether the unread events fit the capacity and the numbers fit their
    /// machine types.
    pub open spec fn wf(self) -> bool {
        &&& self.pending.len() <= self.capacity
        &&& self.capacity <= usize::MAX
        &&& self.dropped <= u64::MAX
    }

    /// The bus after its oldest unread event was taken.
    pub open spec fn without_oldest(self) -> BusView {
        BusView { pending: self.pending.drop_first(), ..self }
    }
}

/// Publishing keeps a bus well formed.
pub proof fn lemma_publish_wf(bus: BusView, event: EventView)
    requires
        bus.wf(),
    ensures
        bus.publish(event).wf(),
{
}

/// However many events are published, and however slowly they are read, the
/// bus holds the most recent ones in the order in which they came, up to its
/// capacity, and has counted every event that it discarded.
pub proof fn lemma_publish_all_keeps_latest(bus: BusView, events: Seq<EventView>)
    requires
        bus.wf(),
    ensures
        bus.publish_all(events).wf(),
        bus.publish_all(events).capacity == bus.capacity,
        bus.publish_all(events).pending == keep_last(bus.pending + events, bus.capacity),
        bus.publish_all(events).dropped == saturating_count(
            bus.dropped,
            overflow(bus.pending.len() + events.len(), bus.capacity),
        ),
    decreases events.len(),
{
    if events.len() == 0 {
        assert(bus.pending + events =~= bus.pending);
    } else {
        let earlier = events.drop_last();
        lemma_publish_all_keeps_latest(bus, earlier);
        let before = bus.publish_all(earlier);
        assert((bus.pending + earlier).push(events.last()) =~= bus.pending + events);
        assert(before.publish(events.last()).pending =~= keep_last(
            bus.pending + events,
            bus.capacity,
        ));
    }
}

/// A single-producer, single-consumer queue of events with a fixed capacity.
pub struct EventBus {
    queue: VecDeque<Event>,
    capacity: usize,
    dropped: u64,
}

impl View for EventBus {
    type V = BusView;

    closed spec fn view(&self) -> BusView {
        BusView {
            pending: keep_last(self.queue@.map_values(|e: Event| e@), self.capacity as nat),
            capacity: self.capacity as nat,
            dropped: self.dropped as nat,
        }
    }
}

impl EventBus {
    #[verifier::type_invariant]
    spec fn bounded(&self) -> bool {
        self.queue@.len() <= self.capacity
    }

    /// The unread events fit the capacity, and the numbers fit their machine
    /// types.
    pub proof fn lemma_wf(&self)
        ensures
            self@.wf(),
    {
    }

    /// An empty bus that holds `capacity` unread events at most.
    pub fn new(capacity: usize) -> (bus: EventBus)
        ensures
            bus@ == (BusView { pending: Seq::empty(), capacity: capacity as nat, dropped: 0 }),
    {
        let bus = EventBus { queue: VecDeque::new(), capacity, dropped: 0 };
        assert(bus@.pending =~= Seq::empty());
        bus
    }

    /// Puts `event` behind the unread events. If the bus is full, the oldest
    /// unread event is discarded to make room and the loss is counted; a bus
    /// of capacity zero discards `event` itself.
    pub fn publish(&mut self, event: Event)
        ensures
            final(self)@ == old(self)@.publish(event@),
    {
        proof {
            use_type_invariant(&*self);
        }
        let mut queue: VecDeque<Event> = VecDeque::new();
        std::mem::swap(&mut self.queue, &mut queue);
        if queue.len() >= self.capacity {
            if self.dropped < u64::MAX {
                self.dropped = self.dropped + 1;
            }
            let _ = queue.pop_front();
        }
        if self.capacity > 0 {
            queue.push_back(event);
        }
        std::mem::swap(&mut self.queue, &mut queue);
        assert(self@.pending =~= old(self)@.publish(event@).pending);
    }

    /// Takes the oldest unread event, if there is one.
    pub fn poll(&mut self) -> (r: Option<Event>)
        ensures
            match r {
                Some(event) => old(self)@.pending.len() > 0 && event@ == old(self)@.pending[0]
                    && final(self)@ == old(self)@.without_oldest(),
                None => old(self)@.pending.len() == 0 && final(self)@ == old(self)@,
            },
    {
        proof {
            use_type_invariant(&*self);
        }
        let mut queue: VecDeque<Event> = VecDeque::new();
        std::mem::swap(&mut self.queue, &mut queue);
        let r = queue.pop_front();
        std::mem::swap(&mut self.queue, &mut queue);
        assert(self@.pending =~= if r is Some {
            old(self)@.pending.drop_first()
        } else {
            old(self)@.pending
        });
        r
    }

    /// The number of unread events.
    pub fn len(&self) -> (n: usize)
        ensures
            n == self@.pending.len(),
            n <= self@.capacity,
    {
        proof {
            use_type_invariant(self);
        }
        self.queue.len()
    }

    /// Whether there is no unread event.
    pub fn is_empty(&self) -> (r: bool)
        ensures
            r == (self@.pending.len() == 0),
    {
        proof {
            use_type_invariant(self);
        }
        self.queue.len() == 0
    }

    /// The number of unread events that the bus holds at most.
    pub fn capacity(&self) -> (n: usize)
        ensures
            n == self@.capacity,
    {
        self.capacity
    }

    /// The number of events discarded unread so far. The counter stops at
    /// the largest value it can hold.
    pub fn dropped_count(&self) -> (n: u64)
        ensures
            n == self@.dropped,
    {
        self.dropped
    }
}

} // verus!
