//! The core's hub: the reminder event, the broadcast bus that fans it
//! out, and the ingestor step that serializes inbound agenda requests.
//!
//! The bus decouples the scheduler from however many consumers exist:
//! publishing never blocks on a slow subscriber; instead each
//! subscriber owns a bounded queue that drops its oldest entry on
//! overflow (a stale reminder is worth less than a fresh one, and the
//! steady rate is at most one event a day).  A subscriber only sees
//! what was published after it subscribed.

use vstd::prelude::*;
use crate::agenda::{Agenda, AgendaPoint};
use crate::events;

verus! {

/// What the scheduler announces to every subscriber: a reminder,
/// carrying the matched calendar event at the moment of detection.
#[derive(Debug)]
pub enum Event {
    Reminder { event: events::Event },
}

impl Clone for Event {
    fn clone(&self) -> (r: Self)
        ensures
            r == *self,
    {
        match self {
            Event::Reminder { event } => Event::Reminder { event: event.clone() },
        }
    }
}

/// Wraps a found meeting as the event the bus carries.
pub fn get_reminder_event(event: events::Event) -> (r: Event)
    ensures
        r == (Event::Reminder { event: event }),
{
    Event::Reminder { event }
}

/// What a bounded queue holds once an event lands: the event appended,
/// and on overflow the oldest entry dropped.
pub open spec fn bounded_push(q: Seq<Event>, e: Event, cap: nat) -> Seq<Event> {
    if q.len() < cap {
        q.push(e)
    } else {
        q.drop_first().push(e)
    }
}

/// The broadcast bus: one bounded queue per subscriber, and the ghost
/// record of everything ever published.
pub struct EventBus {
    pub capacity: usize,
    pub queues: Vec<Vec<Event>>,
    pub history: Ghost<Seq<Event>>,
}

impl EventBus {
    /// No queue outgrows the bound, the bound can hold at least one
    /// event, and every queue is a suffix of the publish history: what
    /// a subscriber holds is the newest published events, in publish
    /// order — which is why all subscribers observe events in the same
    /// relative order.
    pub open spec fn wf(self) -> bool {
        &&& 1 <= self.capacity
        &&& forall|i: int|
            0 <= i < self.queues@.len() ==> (#[trigger] self.queues@[i])@.len() <= self.capacity
        &&& forall|i: int|
            0 <= i < self.queues@.len() ==> (#[trigger] self.queues@[i])@.len()
                <= self.history@.len()
        &&& forall|i: int|
            0 <= i < self.queues@.len() ==> (#[trigger] self.queues@[i])@ == self.history@
                .subrange(
                self.history@.len() - self.queues@[i]@.len(),
                self.history@.len() as int,
            )
    }

    /// A bus with no subscribers yet; each subscriber will get a queue
    /// of at most `capacity` waiting events.
    pub fn new(capacity: usize) -> (r: Self)
        requires
            capacity >= 1,
        ensures
            r.wf(),
            r.capacity == capacity,
            r.queues@.len() == 0,
            r.history@ == Seq::<Event>::empty(),
    {
        EventBus { capacity, queues: Vec::new(), history: Ghost(Seq::empty()) }
    }

    /// A new subscription: the returned handle receives every event
    /// published from now on, and nothing from before (no replay).
    pub fn subscribe(&mut self) -> (h: usize)
        requires
            old(self).wf(),
        ensures
            final(self).wf(),
            final(self).capacity == old(self).capacity,
            h == old(self).queues@.len(),
            final(self).queues@.len() == old(self).queues@.len() + 1,
            forall|i: int|
                0 <= i < old(self).queues@.len() ==> final(self).queues@[i] == old(
                    self,
                ).queues@[i],
            final(self).queues@[h as int]@ == Seq::<Event>::empty(),
            final(self).history@ == old(self).history@,
    {
        let h = self.queues.len();
        self.queues.push(Vec::new());
        proof {
            let hist = self.history@;
            assert(Seq::<Event>::empty() =~= hist.subrange(hist.len() as int, hist.len() as int));
        }
        h
    }

    /// Delivers `e` to every current subscriber, dropping the oldest
    /// waiting entry of a full queue.  With no subscriber the event is
    /// simply dropped.  Every subscriber sees published events in
    /// publish order, since each queue only ever appends at the back.
    pub fn publish(&mut self, e: &Event)
        requires
            old(self).wf(),
        ensures
            final(self).wf(),
            final(self).capacity == old(self).capacity,
            final(self).queues@.len() == old(self).queues@.len(),
            forall|i: int|
                0 <= i < old(self).queues@.len() ==> (#[trigger] final(self).queues@[i])@
                    == bounded_push(old(self).queues@[i]@, *e, old(self).capacity as nat),
            final(self).history@ == old(self).history@.push(*e),
    {
        proof {
            self.history@ = self.history@.push(*e);
        }
        let mut i: usize = 0;
        while i < self.queues.len()
            invariant
                i <= self.queues@.len(),
                self.capacity == old(self).capacity,
                self.queues@.len() == old(self).queues@.len(),
                old(self).wf(),
                self.history@ == old(self).history@.push(*e),
                forall|j: int|
                    0 <= j < i ==> (#[trigger] self.queues@[j])@ == bounded_push(
                        old(self).queues@[j]@,
                        *e,
                        old(self).capacity as nat,
                    ),
                forall|j: int|
                    0 <= j < i ==> (#[trigger] self.queues@[j])@.len() <= self.capacity
                        && self.queues@[j]@.len() <= self.history@.len() && self.queues@[j]@
                        == self.history@.subrange(
                        self.history@.len() - self.queues@[j]@.len(),
                        self.history@.len() as int,
                    ),
                forall|j: int|
                    i <= j < self.queues@.len() ==> #[trigger] self.queues@[j] == old(
                        self,
                    ).queues@[j],
            decreases self.queues@.len() - i,
        {
            let ghost before = self.queues@[i as int]@;
            self.queues[i].push(e.clone());
            if self.queues[i].len() > self.capacity {
                self.queues[i].remove(0);
                proof {
                    assert(self.queues@[i as int]@ =~= bounded_push(
                        before,
                        *e,
                        old(self).capacity as nat,
                    ));
                }
            }
            proof {
                let hist = self.history@;
                let q = self.queues@[i as int]@;
                assert(q =~= hist.subrange(hist.len() - q.len(), hist.len() as int));
            }
            i = i + 1;
        }
    }

    /// Takes the oldest waiting event of subscription `h`, if any.
    pub fn try_recv(&mut self, h: usize) -> (r: Option<Event>)
        requires
            old(self).wf(),
            h < old(self).queues@.len(),
        ensures
            final(self).wf(),
            final(self).capacity == old(self).capacity,
            final(self).queues@.len() == old(self).queues@.len(),
            forall|j: int|
                0 <= j < old(self).queues@.len() && j != h ==> final(self).queues@[j] == old(
                    self,
                ).queues@[j],
            final(self).history@ == old(self).history@,
            ({
                let q = old(self).queues@[h as int]@;
                if q.len() == 0 {
                    r is None && final(self).queues@[h as int]@ == q
                } else {
                    r == Some(q[0]) && final(self).queues@[h as int]@ == q.drop_first()
                }
            }),
    {
        if self.queues[h].len() == 0 {
            None
        } else {
            let front = self.queues[h].remove(0);
            proof {
                let hist = self.history@;
                let q = self.queues@[h as int]@;
                assert(q =~= hist.subrange(hist.len() - q.len(), hist.len() as int));
            }
            Some(front)
        }
    }
}

/// Delivery keeps publish order: element `k` of any subscriber's queue
/// is the published event `history.len() - queue.len() + k`, so two
/// subscribers never observe published events in different relative
/// orders.
pub proof fn lemma_queue_in_publish_order(bus: EventBus, i: int, k: int)
    requires
        bus.wf(),
        0 <= i < bus.queues@.len(),
        0 <= k < bus.queues@[i]@.len(),
    ensures
        bus.queues@[i]@[k] == bus.history@[bus.history@.len() - bus.queues@[i]@.len() + k],
{
}

/// Applies a batch of inbound add requests to the agenda, in arrival
/// order: the ingestor's serialization step.  Every request is
/// preserved — none is lost to another — and the arrival order is the
/// appended order.
pub fn handle_agenda(agenda: &mut Agenda, batch: Vec<AgendaPoint>)
    ensures
        final(agenda).points@ == old(agenda).points@ + batch@,
{
    let mut i: usize = 0;
    while i < batch.len()
        invariant
            i <= batch@.len(),
            agenda.points@ == old(agenda).points@ + batch@.subrange(0, i as int),
        decreases batch@.len() - i,
    {
        agenda.push_write(batch[i].clone());
        i = i + 1;
        proof {
            assert(agenda.points@ =~= old(agenda).points@ + batch@.subrange(0, i as int));
        }
    }
    proof {
        assert(agenda.points@ =~= old(agenda).points@ + batch@);
    }
}

} // verus!
