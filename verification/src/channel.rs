//! The knob event channel: an unbounded first-in, first-out queue between the
//! context that resolves knob events and the one that consumes them.
//!
//! The channel does not block. A consumer that finds it empty waits by its
//! own means and asks again.

use std::collections::VecDeque;
use vstd::prelude::*;

use crate::RotaryKnobEvent;

verus! {

/// The event that a consumer takes next from a channel that holds `waiting`:
/// the one that has waited longest, or none from an empty channel.
pub open spec fn front(waiting: Seq<RotaryKnobEvent>) -> Option<RotaryKnobEvent> {
    if waiting.len() == 0 {
        None
    } else {
        Some(waiting[0])
    }
}

/// What a channel that holds `waiting` holds after a consumer has taken from
/// it: every event but the one that has waited longest, in the same order.
pub open spec fn behind_front(waiting: Seq<RotaryKnobEvent>) -> Seq<RotaryKnobEvent> {
    if waiting.len() == 0 {
        waiting
    } else {
        waiting.skip(1)
    }
}

/// The events that were sent and not yet received, oldest first.
pub struct KnobEventChannel {
    queue: VecDeque<RotaryKnobEvent>,
}

impl View for KnobEventChannel {
    type V = Seq<RotaryKnobEvent>;

    closed spec fn view(&self) -> Seq<RotaryKnobEvent> {
        self.queue@
    }
}

impl KnobEventChannel {
    /// An empty channel.
    pub fn new() -> (channel: Self)
        ensures
            channel@ == Seq::<RotaryKnobEvent>::empty(),
    {
        KnobEventChannel { queue: VecDeque::new() }
    }

    /// The number of events that wait in the channel.
    pub fn len(&self) -> (n: usize)
        ensures
            n == self@.len(),
    {
        self.queue.len()
    }

    /// Whether no event waits in the channel.
    pub fn is_empty(&self) -> (empty: bool)
        ensures
            empty == (self@.len() == 0),
    {
        self.queue.len() == 0
    }

    /// Puts `event` behind every event that waits.
    pub fn send(&mut self, event: RotaryKnobEvent)
        ensures
            final(self)@ == old(self)@.push(event),
    {
        self.queue.push_back(event);
    }

    /// Takes the event that has waited longest, if any waits.
    pub fn try_recv(&mut self) -> (event: Option<RotaryKnobEvent>)
        ensures
            event == front(old(self)@),
            final(self)@ == behind_front(old(self)@),
    {
        let event = self.queue.pop_front();
        event
    }
}

/// One use of the channel, by the producer or by the consumer.
pub enum ChannelOp {
    Send(RotaryKnobEvent),
    Receive,
}

/// The events that `ops` send, in order.
pub open spec fn sent(ops: Seq<ChannelOp>) -> Seq<RotaryKnobEvent>
    decreases ops.len(),
{
    if ops.len() == 0 {
        Seq::empty()
    } else {
        match ops.last() {
            ChannelOp::Send(event) => sent(ops.drop_last()).push(event),
            ChannelOp::Receive => sent(ops.drop_last()),
        }
    }
}

/// What waits in a channel that held `waiting` after `ops` were applied to it
/// in order.
pub open spec fn waiting_after(waiting: Seq<RotaryKnobEvent>, ops: Seq<ChannelOp>) -> Seq<
    RotaryKnobEvent,
>
    decreases ops.len(),
{
    if ops.len() == 0 {
        waiting
    } else {
        let before = waiting_after(waiting, ops.drop_last());
        match ops.last() {
            ChannelOp::Send(event) => before.push(event),
            ChannelOp::Receive => behind_front(before),
        }
    }
}

/// The events that the consumer got from a channel that held `waiting` while
/// `ops` were applied to it in order.
pub open spec fn received(waiting: Seq<RotaryKnobEvent>, ops: Seq<ChannelOp>) -> Seq<
    RotaryKnobEvent,
>
    decreases ops.len(),
{
    if ops.len() == 0 {
        Seq::empty()
    } else {
        let before = waiting_after(waiting, ops.drop_last());
        let got = received(waiting, ops.drop_last());
        match ops.last() {
            ChannelOp::Send(_) => got,
            ChannelOp::Receive => match front(before) {
                Some(event) => got.push(event),
                None => got,
            },
        }
    }
}

/// However sends and receives interleave, what the consumer got followed by
/// what still waits is what waited at first followed by what was sent: no
/// event is lost, none comes twice, and none overtakes another. Once the
/// channel is empty the consumer has got all of them, in the order of sending.
pub proof fn lemma_fifo(waiting: Seq<RotaryKnobEvent>, ops: Seq<ChannelOp>)
    ensures
        received(waiting, ops) + waiting_after(waiting, ops) == waiting + sent(ops),
        waiting_after(waiting, ops).len() == 0 ==> received(waiting, ops) == waiting + sent(ops),
    decreases ops.len(),
{
    if ops.len() > 0 {
        let earlier = ops.drop_last();
        lemma_fifo(waiting, earlier);
        if let ChannelOp::Send(event) = ops.last() {
            assert(waiting + sent(earlier).push(event) =~= (waiting + sent(earlier)).push(event));
        }
    }
}

} // verus!
