//! The trigger-event channel: an ordered single-producer, single-consumer
//! queue with disconnect signalling.
//!
//! Events are delivered strictly in the order they were sent; nothing is
//! reordered, dropped or deduplicated.  A receive yields the oldest queued
//! event if one is pending.  With nothing pending it reports a timeout while
//! the producer is still connected — so a consumer polling an idle channel
//! sees timeouts and never a spurious event — and a disconnect once the
//! producer is gone, after the queue has drained.  The caller supplies the
//! waiting itself: it polls `receive` and sleeps between polls, so the
//! blocking-with-timeout primitive is a thin loop around this model.

use vstd::prelude::*;

use crate::events::TriggerEvent;

verus! {

/// The outcome of one receive.
#[derive(Clone, Copy, Debug, PartialEq, Eq, Structural)]
pub enum RecvOutcome {
    /// The oldest pending event, now removed from the queue.
    Event(TriggerEvent),
    /// Nothing pending; the producer is still connected.
    Timeout,
    /// Nothing pending and the producer has disconnected.
    Disconnected,
}

/// What one receive returns, given the pending queue and whether the
/// producer is still connected.
pub open spec fn recv_outcome(queue: Seq<TriggerEvent>, connected: bool) -> RecvOutcome {
    if queue.len() > 0 {
        RecvOutcome::Event(queue[0])
    } else if connected {
        RecvOutcome::Timeout
    } else {
        RecvOutcome::Disconnected
    }
}

/// The pending queue after one receive: the oldest event is consumed,
/// otherwise nothing changes.
pub open spec fn recv_rest(queue: Seq<TriggerEvent>) -> Seq<TriggerEvent> {
    if queue.len() > 0 {
        queue.drop_first()
    } else {
        queue
    }
}

/// The ordered queue between the poller and the consumer.
#[derive(Debug)]
pub struct EventChannel {
    /// Pending events, oldest first.
    pub queue: Vec<TriggerEvent>,
    /// Whether the producing side is still attached.
    pub connected: bool,
}

impl EventChannel {
    /// An empty channel with the producer attached.
    pub fn new() -> (c: EventChannel)
        ensures
            c.queue@ =~= Seq::<TriggerEvent>::empty(),
            c.connected,
    {
        EventChannel { queue: Vec::new(), connected: true }
    }

    /// Appends one event; everything already pending stays ahead of it.
    pub fn send(&mut self, event: TriggerEvent)
        ensures
            final(self).queue@ == old(self).queue@.push(event),
            final(self).connected == old(self).connected,
    {
        self.queue.push(event);
    }

    /// Detaches the producing side; pending events remain receivable.
    pub fn disconnect(&mut self)
        ensures
            final(self).queue@ == old(self).queue@,
            !final(self).connected,
    {
        self.connected = false;
    }

    /// One receive step: yields the oldest pending event, or a timeout on an
    /// idle connected channel, or the disconnect once the producer is gone
    /// and the queue has drained.
    pub fn receive(&mut self) -> (r: RecvOutcome)
        ensures
            r == recv_outcome(old(self).queue@, old(self).connected),
            final(self).queue@ == recv_rest(old(self).queue@),
            final(self).connected == old(self).connected,
    {
        if self.queue.len() > 0 {
            let e = self.queue.remove(0);
            RecvOutcome::Event(e)
        } else if self.connected {
            RecvOutcome::Timeout
        } else {
            RecvOutcome::Disconnected
        }
    }
}

/// An idle channel is stable: with nothing pending and the producer still
/// connected, a receive reports a timeout and leaves the channel exactly as
/// it was — so repeated receives with no new input all report timeouts and
/// never a spurious event.
pub proof fn lemma_idle_receive_times_out(queue: Seq<TriggerEvent>, connected: bool)
    requires
        queue.len() == 0,
        connected,
    ensures
        recv_outcome(queue, connected) == RecvOutcome::Timeout,
        recv_rest(queue) == queue,
{
}

/// Delivery follows emission order: however the queue stood when two events
/// were sent in succession, the first sits ahead of the second, and the
/// receives that reach them yield them in that order.
pub proof fn lemma_send_preserves_order(
    queue: Seq<TriggerEvent>,
    first: TriggerEvent,
    second: TriggerEvent,
)
    ensures
        ({
            let q2 = queue.push(first).push(second);
            &&& q2[queue.len() as int] == first
            &&& q2[queue.len() as int + 1] == second
            &&& forall|n: int|
                0 <= n < q2.len() ==> #[trigger] recv_outcome(q2.skip(n), true)
                    == RecvOutcome::Event(q2[n])
            &&& forall|n: int|
                0 <= n < q2.len() ==> #[trigger] recv_rest(q2.skip(n)) == q2.skip(n + 1)
        }),
{
    let q2 = queue.push(first).push(second);
    assert forall|n: int| 0 <= n < q2.len() implies #[trigger] recv_outcome(q2.skip(n), true)
        == RecvOutcome::Event(q2[n]) && #[trigger] recv_rest(q2.skip(n)) == q2.skip(n + 1) by {
        assert(q2.skip(n)[0] == q2[n]);
        assert(q2.skip(n).drop_first() =~= q2.skip(n + 1));
    }
}

} // verus!
