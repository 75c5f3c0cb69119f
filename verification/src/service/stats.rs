//! Counters kept for the intercom channel of a service.

use vstd::prelude::*;

verus! {

/// A snapshot of the counters of one intercom channel.
#[derive(Clone, Copy, Debug, PartialEq, Eq, Structural)]
pub struct IntercomStatus {
    /// Messages accepted by the channel.
    pub number_sent: u64,
    /// Messages handed to the receiving service.
    pub number_received: u64,
    /// Senders that are alive.
    pub number_connections: u64,
}

/// Something that happened on an intercom channel.
#[derive(Clone, Copy, Debug, PartialEq, Eq, Structural)]
pub enum IntercomEvent {
    /// A message was queued.
    Sent,
    /// A message was taken out by the receiver.
    Received,
    /// A sender was cloned.
    Connected,
    /// A sender was dropped.
    Disconnected,
}

/// `count + 1`, held at the largest value a counter can take.
pub open spec fn counted_up(count: u64) -> u64 {
    if count < u64::MAX {
        (count + 1) as u64
    } else {
        count
    }
}

/// `count - 1`, held at zero.
pub open spec fn counted_down(count: u64) -> u64 {
    if count > 0 {
        (count - 1) as u64
    } else {
        count
    }
}

impl IntercomStatus {
    /// The counters once `event` has been recorded.
    pub open spec fn after(self, event: IntercomEvent) -> IntercomStatus {
        match event {
            IntercomEvent::Sent => IntercomStatus {
                number_sent: counted_up(self.number_sent),
                ..self
            },
            IntercomEvent::Received => IntercomStatus {
                number_received: counted_up(self.number_received),
                ..self
            },
            IntercomEvent::Connected => IntercomStatus {
                number_connections: counted_up(self.number_connections),
                ..self
            },
            IntercomEvent::Disconnected => IntercomStatus {
                number_connections: counted_down(self.number_connections),
                ..self
            },
        }
    }

    /// The counters once all of `events` have been recorded, first to last.
    pub open spec fn after_all(self, events: Seq<IntercomEvent>) -> IntercomStatus
        decreases events.len(),
    {
        if events.len() == 0 {
            self
        } else {
            self.after_all(events.drop_last()).after(events.last())
        }
    }

    /// No counter of `self` is below the same counter of `earlier`.
    pub open spec fn not_below(self, earlier: IntercomStatus) -> bool {
        &&& earlier.number_sent <= self.number_sent
        &&& earlier.number_received <= self.number_received
        &&& earlier.number_connections <= self.number_connections
    }
}

/// The live counters of one intercom channel.
#[derive(Clone, Copy, Debug, PartialEq, Eq, Structural)]
pub struct IntercomStats {
    sent: u64,
    received: u64,
    connections: u64,
}

impl View for IntercomStats {
    type V = IntercomStatus;

    closed spec fn view(&self) -> IntercomStatus {
        IntercomStatus {
            number_sent: self.sent,
            number_received: self.received,
            number_connections: self.connections,
        }
    }
}

fn count_up(count: u64) -> (next: u64)
    ensures
        next == counted_up(count),
{
    if count < u64::MAX {
        count + 1
    } else {
        count
    }
}

fn count_down(count: u64) -> (next: u64)
    ensures
        next == counted_down(count),
{
    if count > 0 {
        count - 1
    } else {
        count
    }
}

impl IntercomStats {
    /// Counters of a channel on which nothing has happened yet.
    pub fn new() -> (stats: IntercomStats)
        ensures
            stats@ == (IntercomStatus { number_sent: 0, number_received: 0, number_connections: 0 }),
    {
        IntercomStats { sent: 0, received: 0, connections: 0 }
    }

    /// Records `event`.
    pub fn record(&mut self, event: IntercomEvent)
        ensures
            final(self)@ == old(self)@.after(event),
    {
        match event {
            IntercomEvent::Sent => {
                self.sent = count_up(self.sent);
            },
            IntercomEvent::Received => {
                self.received = count_up(self.received);
            },
            IntercomEvent::Connected => {
                self.connections = count_up(self.connections);
            },
            IntercomEvent::Disconnected => {
                self.connections = count_down(self.connections);
            },
        }
    }

    /// A snapshot of the counters.
    pub fn status(&self) -> (status: IntercomStatus)
        ensures
            status == self@,
    {
        IntercomStatus {
            number_sent: self.sent,
            number_received: self.received,
            number_connections: self.connections,
        }
    }
}

/// Recording an event never lowers `number_sent` or `number_received`, and
/// lowers `number_connections` only when the event is a dropped sender.
pub proof fn lemma_event_keeps_counters(before: IntercomStatus, event: IntercomEvent)
    ensures
        before.number_sent <= before.after(event).number_sent,
        before.number_received <= before.after(event).number_received,
        event != IntercomEvent::Disconnected ==> before.after(event).not_below(before),
{
}

/// Over any run of events, `number_sent` and `number_received` never
/// decrease; if no sender is dropped during the run, `number_connections`
/// does not decrease either.
pub proof fn lemma_counters_never_decrease(before: IntercomStatus, events: Seq<IntercomEvent>)
    ensures
        before.number_sent <= before.after_all(events).number_sent,
        before.number_received <= before.after_all(events).number_received,
        (forall|i: int| 0 <= i < events.len() ==> events[i] != IntercomEvent::Disconnected)
            ==> before.after_all(events).not_below(before),
    decreases events.len(),
{
    if events.len() > 0 {
        let earlier = events.drop_last();
        lemma_counters_never_decrease(before, earlier);
        lemma_event_keeps_counters(before.after_all(earlier), events.last());
        if forall|i: int| 0 <= i < events.len() ==> events[i] != IntercomEvent::Disconnected {
            assert forall|i: int| 0 <= i < earlier.len() implies earlier[i]
                != IntercomEvent::Disconnected by {
                assert(earlier[i] == events[i]);
            }
        }
    }
}

} // verus!
