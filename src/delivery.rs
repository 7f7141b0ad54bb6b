use vstd::prelude::*;
use std::collections::VecDeque;
use crate::event::{EventModel, RdevEvent};

verus! {

/// What one delivery hands to the consumer: a normalized event, or the
/// absence marker when normalization yields nothing.
pub open spec fn outcome_view(o: Option<RdevEvent>) -> Option<EventModel> {
    match o {
        Some(e) => Some(e@),
        None => None,
    }
}

/// Mathematical view of a delivery channel: the outcomes waiting for the
/// consumer, oldest first, and whether the consumer still accepts them.
pub struct ChannelModel {
    pub pending: Seq<Option<EventModel>>,
    pub open: bool,
}

/// A single-producer, single-consumer FIFO from the capture side to the
/// consumer. Delivery never waits and never fails: it enqueues while the
/// consumer is attached and drops silently once it is gone. The queue is
/// unbounded; a consumer that needs bounded memory throttles on its side.
pub struct DeliveryChannel {
    pending: VecDeque<Option<RdevEvent>>,
    open: bool,
}

impl View for DeliveryChannel {
    type V = ChannelModel;

    closed spec fn view(&self) -> ChannelModel {
        ChannelModel { pending: self.pending@.map_values(|o| outcome_view(o)), open: self.open }
    }
}

impl DeliveryChannel {
    /// An empty channel with its consumer attached.
    pub fn new() -> (r: Self)
        ensures
            r@.pending == Seq::<Option<EventModel>>::empty(),
            r@.open,
    {
        let r = DeliveryChannel { pending: VecDeque::new(), open: true };
        assert(r@.pending =~= Seq::<Option<EventModel>>::empty());
        r
    }

    /// Schedules `outcome` for the consumer after everything delivered
    /// before it; dropped if the consumer is gone. Runs in bounded time.
    pub fn deliver(&mut self, outcome: Option<RdevEvent>)
        ensures
            final(self)@.open == old(self)@.open,
            old(self)@.open ==> final(self)@.pending == old(self)@.pending.push(
                outcome_view(outcome),
            ),
            !old(self)@.open ==> final(self)@.pending == old(self)@.pending,
    {
        if self.open {
            let ghost before = self.pending@;
            self.pending.push_back(outcome);
            assert(self.pending@.map_values(|o| outcome_view(o)) =~= before.map_values(
                |o| outcome_view(o),
            ).push(outcome_view(outcome)));
        }
    }

    /// Hands the oldest waiting outcome to the consumer, if any.
    pub fn take(&mut self) -> (r: Option<Option<RdevEvent>>)
        ensures
            final(self)@.open == old(self)@.open,
            old(self)@.pending.len() == 0 ==> r is None && final(self)@.pending == old(self)@.pending,
            old(self)@.pending.len() > 0 ==> r is Some && outcome_view(r->0) == old(self)@.pending[0]
                && final(self)@.pending == old(self)@.pending.drop_first(),
    {
        let ghost before = self.pending@;
        let r = self.pending.pop_front();
        proof {
            if before.len() > 0 {
                assert(self.pending@.map_values(|o| outcome_view(o)) =~= before.map_values(
                    |o| outcome_view(o),
                ).drop_first());
            }
        }
        r
    }

    /// Number of outcomes waiting for the consumer.
    pub fn len(&self) -> (r: usize)
        ensures
            r == self@.pending.len(),
    {
        self.pending.len()
    }

    /// Whether the consumer still accepts outcomes.
    pub fn is_open(&self) -> (r: bool)
        ensures
            r == self@.open,
    {
        self.open
    }

    /// Detaches the consumer: what was waiting is discarded, and later
    /// deliveries are dropped.
    pub fn close(&mut self)
        ensures
            !final(self)@.open,
            final(self)@.pending == Seq::<Option<EventModel>>::empty(),
    {
        self.pending.clear();
        self.open = false;
        assert(self@.pending =~= Seq::<Option<EventModel>>::empty());
    }
}

} // verus!
