use vstd::prelude::*;

verus! {

/// What a receive from a progress slot finds.
pub enum Received<T> {
    /// The pending value, now taken out.
    Value(T),
    /// Nothing is pending and the producer is still open: wait and try again.
    Empty,
    /// Nothing is pending and the producer has closed: no value will come.
    Closed,
}

/// A single-slot, latest-value-wins conduit from one producer to one consumer.
///
/// A send never waits: it puts its value in the slot, replacing any value
/// that the consumer has not taken yet. So progress shown from it may skip
/// values, and only a send after the consumer's last receive is sure to be
/// seen; a final value must be sent after the work is done.
pub struct ProgressSlot<T> {
    pending: Option<T>,
    closed: bool,
}

/// The slot's content after a send of `v`: a closed slot takes nothing.
pub open spec fn after_send<T>(pending: Option<T>, closed: bool, v: T) -> Option<T> {
    if closed {
        pending
    } else {
        Some(v)
    }
}

/// The slot's content after sends of `values`, in order, on an open slot.
pub open spec fn after_sends<T>(pending: Option<T>, values: Seq<T>) -> Option<T>
    decreases values.len(),
{
    if values.len() == 0 {
        pending
    } else {
        after_send(after_sends(pending, values.drop_last()), false, values.last())
    }
}

/// What a receive finds, and what it leaves in the slot.
pub open spec fn receive<T>(pending: Option<T>, closed: bool) -> (Received<T>, Option<T>) {
    match pending {
        Some(v) => (Received::Value(v), None),
        None => if closed {
            (Received::Closed, None)
        } else {
            (Received::Empty, None)
        },
    }
}

impl<T> ProgressSlot<T> {
    /// The value waiting in the slot, if any.
    pub closed spec fn pending(&self) -> Option<T> {
        self.pending
    }

    /// Whether the producer has closed the slot.
    pub closed spec fn is_closed(&self) -> bool {
        self.closed
    }

    /// An open, empty slot.
    pub fn new() -> (r: Self)
        ensures
            r.pending() is None,
            !r.is_closed(),
    {
        ProgressSlot { pending: None, closed: false }
    }

    /// Offers a value without waiting: it replaces whatever is pending.
    /// Returns whether it was taken, which is so unless the slot is closed.
    pub fn try_send(&mut self, v: T) -> (r: bool)
        ensures
            r == !old(self).is_closed(),
            final(self).pending() == after_send(old(self).pending(), old(self).is_closed(), v),
            final(self).is_closed() == old(self).is_closed(),
    {
        if self.closed {
            false
        } else {
            self.pending = Some(v);
            true
        }
    }

    /// Takes the pending value, if any.
    pub fn recv(&mut self) -> (r: Received<T>)
        ensures
            r == receive(old(self).pending(), old(self).is_closed()).0,
            final(self).pending() == receive(old(self).pending(), old(self).is_closed()).1,
            final(self).is_closed() == old(self).is_closed(),
    {
        match self.pending.take() {
            Some(v) => Received::Value(v),
            None => if self.closed {
                Received::Closed
            } else {
                Received::Empty
            },
        }
    }

    /// Closes the producer's side; a value still pending can be received.
    pub fn close(&mut self)
        ensures
            final(self).is_closed(),
            final(self).pending() == old(self).pending(),
    {
        self.closed = true;
    }
}

/// A burst of sends on an open slot, followed by one receive, yields exactly
/// one value, the last one sent; the slot is then empty, so a second
/// receive finds nothing until the next send.
pub proof fn lemma_burst_then_receive<T>(pending: Option<T>, values: Seq<T>)
    requires
        values.len() > 0,
    ensures
        after_sends(pending, values) == Some(values.last()),
        receive(after_sends(pending, values), false).0 == Received::Value(values.last()),
        receive(after_sends(pending, values), false).1 is None,
        receive(receive(after_sends(pending, values), false).1, false).0 == Received::<T>::Empty,
{
}

/// The values sent in a sequence of slot events, in order; an event is a
/// send of a value (`Some`) or a receive (`None`).
pub open spec fn sent_values(events: Seq<Option<u64>>) -> Seq<u64>
    decreases events.len(),
{
    if events.len() == 0 {
        seq![]
    } else {
        sent_values(events.drop_last()) + match events.last() {
            Some(v) => seq![v],
            None => seq![],
        }
    }
}

/// Plays the events on an open, empty slot: what is left pending, and the
/// values the consumer received, in order.
pub open spec fn replay(events: Seq<Option<u64>>) -> (Option<u64>, Seq<u64>)
    decreases events.len(),
{
    if events.len() == 0 {
        (None, seq![])
    } else {
        let (p, seen) = replay(events.drop_last());
        match events.last() {
            Some(v) => (after_send(p, false, v), seen),
            None => match receive(p, false).0 {
                Received::Value(x) => (receive(p, false).1, seen.push(x)),
                _ => (p, seen),
            },
        }
    }
}

pub open spec fn non_decreasing(s: Seq<u64>) -> bool {
    forall|i: int, j: int| 0 <= i <= j < s.len() ==> s[i] <= s[j]
}

proof fn lemma_replay_bounds(events: Seq<Option<u64>>)
    requires
        non_decreasing(sent_values(events)),
    ensures
        non_decreasing(replay(events).1),
        replay(events).0 matches Some(p) ==> sent_values(events).len() > 0 && p
            == sent_values(events).last(),
        sent_values(events).len() > 0 ==> forall|i: int|
            0 <= i < replay(events).1.len() ==> replay(events).1[i] <= sent_values(events).last(),
        sent_values(events).len() == 0 ==> replay(events).1.len() == 0,
    decreases events.len(),
{
    if events.len() > 0 {
        let prev = events.drop_last();
        let sp = sent_values(prev);
        let sa = sent_values(events);
        assert forall|i: int, j: int| 0 <= i <= j < sp.len() implies sp[i] <= sp[j] by {
            assert(sp[i] == sa[i] && sp[j] == sa[j]);
        }
        lemma_replay_bounds(prev);
        if let Some(v) = events.last() {
            assert(sa == sp.push(v));
            if sp.len() > 0 {
                assert(sa[sp.len() - 1] <= sa[sa.len() - 1]);
            }
        } else {
            assert(sa =~= sp);
        }
    }
}

/// What a consumer receives from a slot never goes back, as long as the
/// producer sends values that never go back: the slot may skip values but
/// does not reorder them.
pub proof fn lemma_received_non_decreasing(events: Seq<Option<u64>>)
    requires
        non_decreasing(sent_values(events)),
    ensures
        non_decreasing(replay(events).1),
{
    lemma_replay_bounds(events);
}

} // verus!
