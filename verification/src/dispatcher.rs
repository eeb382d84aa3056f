//! The edge notification dispatcher: the hand-off between the context that
//! sees pin edges and the one that processes them.
//!
//! The side that sees an edge only queues the pin's name. The processing side
//! takes the names in the order of their arrival, one at a time, reads the
//! clock and the pins, and runs the workflow: the debounce gate, then the
//! decoder or the button detector, then the knob event channel.
//!
//! Only phase notifications are debounced. One that is suppressed still
//! reaches the decoder, which would otherwise judge the next one against a
//! stale sample. Button notifications are never suppressed and leave the
//! debounce window alone.

use std::collections::VecDeque;
use vstd::prelude::*;

use crate::button::{button_event, ButtonEdgeDetector};
use crate::channel::KnobEventChannel;
use crate::debounce::{gate_accepts, gate_after, DebounceGate};
use crate::decoder::{quadrature_direction, Direction, QuadratureDecoder};
use crate::event::EventLoopMessage;
use crate::{PinId, RotaryKnobEvent};

verus! {

/// The levels of the three pins as read when a notification is processed,
/// each `true` while its pin is asserted.
#[derive(Debug, Eq, PartialEq, Copy, Clone, Structural)]
pub struct PinLevels {
    pub button: bool,
    pub phase_a: bool,
    pub phase_b: bool,
}

/// What the dispatcher holds: the notifications that wait, oldest first, the
/// sample that the decoder remembers, the button level that the detector
/// remembers, and the time of the last accepted phase notification.
pub struct DispatcherState {
    pub pending: Seq<EventLoopMessage>,
    pub quadrature: (bool, bool),
    pub button: bool,
    pub last_accepted: u64,
}

/// The knob event that reports a rotation, if it is one.
pub open spec fn turn_event(direction: Direction) -> Option<RotaryKnobEvent> {
    match direction {
        Direction::Clockwise => Some(RotaryKnobEvent::TurnedClockwise),
        Direction::CounterClockwise => Some(RotaryKnobEvent::TurnedCounterClockwise),
        Direction::NoRotation => None,
    }
}

/// The state with a notification from `pin` queued behind those that wait.
pub open spec fn queued(state: DispatcherState, pin: PinId) -> DispatcherState {
    DispatcherState { pending: state.pending.push(EventLoopMessage(pin)), ..state }
}

/// The workflow for one notification from `pin`, processed at `now` with the
/// pins at `levels`: the state it leaves and the event it resolves to.
pub open spec fn step(state: DispatcherState, pin: PinId, now: u64, levels: PinLevels) -> (
    DispatcherState,
    Option<RotaryKnobEvent>,
) {
    match pin {
        PinId::Button => (
            DispatcherState { button: levels.button, ..state },
            button_event(state.button, levels.button),
        ),
        PinId::A | PinId::B => (
            DispatcherState {
                quadrature: (levels.phase_a, levels.phase_b),
                last_accepted: gate_after(state.last_accepted, now),
                ..state
            },
            if gate_accepts(state.last_accepted, now) {
                turn_event(
                    quadrature_direction(state.quadrature, (levels.phase_a, levels.phase_b)),
                )
            } else {
                None
            },
        ),
    }
}

/// One turn of the processing side at `now` with the pins at `levels`: the
/// notification that has waited longest leaves the queue and is processed.
/// With none waiting, nothing happens.
pub open spec fn dispatched(state: DispatcherState, now: u64, levels: PinLevels) -> (
    DispatcherState,
    Option<RotaryKnobEvent>,
) {
    if state.pending.len() == 0 {
        (state, None)
    } else {
        step(
            DispatcherState { pending: state.pending.skip(1), ..state },
            state.pending[0].0,
            now,
            levels,
        )
    }
}

/// The events that one processed notification adds to the channel.
pub open spec fn pushed(event: Option<RotaryKnobEvent>) -> Seq<RotaryKnobEvent> {
    match event {
        Some(e) => seq![e],
        None => Seq::empty(),
    }
}

/// Serialises edge notifications and owns the state that processing them
/// changes.
pub struct EdgeNotificationDispatcher {
    pending: VecDeque<EventLoopMessage>,
    decoder: QuadratureDecoder,
    gate: DebounceGate,
    button: ButtonEdgeDetector,
}

impl View for EdgeNotificationDispatcher {
    type V = DispatcherState;

    closed spec fn view(&self) -> DispatcherState {
        DispatcherState {
            pending: self.pending@,
            quadrature: self.decoder@,
            button: self.button@,
            last_accepted: self.gate@,
        }
    }
}

impl EdgeNotificationDispatcher {
    /// A dispatcher as it is at start-up, at time `start` and with the phase
    /// pins at the given levels: nothing waits, the button counts as
    /// released.
    pub fn new(start: u64, phase_a: bool, phase_b: bool) -> (dispatcher: Self)
        ensures
            dispatcher@ == (DispatcherState {
                pending: Seq::empty(),
                quadrature: (phase_a, phase_b),
                button: false,
                last_accepted: start,
            }),
    {
        EdgeNotificationDispatcher {
            pending: VecDeque::new(),
            decoder: QuadratureDecoder::new(phase_a, phase_b),
            gate: DebounceGate::new(start),
            button: ButtonEdgeDetector::new(),
        }
    }

    /// The number of notifications that wait to be processed.
    pub fn pending_len(&self) -> (n: usize)
        ensures
            n == self@.pending.len(),
    {
        self.pending.len()
    }

    /// The sample that the decoder remembers.
    pub fn quadrature(&self) -> (levels: (bool, bool))
        ensures
            levels == self@.quadrature,
    {
        self.decoder.levels()
    }

    /// The button level that the detector remembers.
    pub fn button_pressed(&self) -> (pressed: bool)
        ensures
            pressed == self@.button,
    {
        self.button.is_pressed()
    }

    /// The time of the last accepted phase notification.
    pub fn last_accepted(&self) -> (t: u64)
        ensures
            t == self@.last_accepted,
    {
        self.gate.last_accepted()
    }

    /// Queues a notification from `pin` behind those that wait. Nothing else
    /// happens here: the debounce gate, the decoder and the button detector
    /// are left to the processing side.
    pub fn notify(&mut self, pin: PinId)
        ensures
            final(self)@ == queued(old(self)@, pin),
    {
        self.pending.push_back(EventLoopMessage::new(pin));
    }

    /// Runs the workflow for one notification, processed at `now` with the
    /// pins at `levels`, and sends the event it resolves to, if any, into
    /// `channel`. Returns that event.
    pub fn process(
        &mut self,
        msg: &EventLoopMessage,
        now: u64,
        levels: PinLevels,
        channel: &mut KnobEventChannel,
    ) -> (event: Option<RotaryKnobEvent>)
        ensures
            (final(self)@, event) == step(old(self)@, msg.0, now, levels),
            final(channel)@ == old(channel)@ + pushed(event),
    {
        let event = match msg.0 {
            PinId::Button => self.button.observe(levels.button),
            PinId::A | PinId::B => {
                let accepted = self.gate.accept(now);
                let direction = self.decoder.decode(levels.phase_a, levels.phase_b);
                if accepted {
                    match direction {
                        Direction::Clockwise => Some(RotaryKnobEvent::TurnedClockwise),
                        Direction::CounterClockwise => Some(
                            RotaryKnobEvent::TurnedCounterClockwise,
                        ),
                        Direction::NoRotation => None,
                    }
                } else {
                    None
                }
            },
        };
        if let Some(e) = event {
            channel.send(e);
        }
        event
    }

    /// Takes the notification that has waited longest, if any waits, and
    /// processes it at `now` with the pins at `levels`. Returns whether there
    /// was one.
    pub fn dispatch(
        &mut self,
        now: u64,
        levels: PinLevels,
        channel: &mut KnobEventChannel,
    ) -> (processed: bool)
        ensures
            processed == (old(self)@.pending.len() > 0),
            final(self)@ == dispatched(old(self)@, now, levels).0,
            final(channel)@ == old(channel)@ + pushed(dispatched(old(self)@, now, levels).1),
    {
        match self.pending.pop_front() {
            Some(msg) => {
                self.process(&msg, now, levels, channel);
                true
            },
            None => false,
        }
    }
}

/// The callback for an edge on `pin_id`: posts the notification to
/// `dispatcher`.
pub fn handle_interrupt(dispatcher: &mut EdgeNotificationDispatcher, pin_id: PinId)
    ensures
        final(dispatcher)@ == queued(old(dispatcher)@, pin_id),
{
    dispatcher.notify(pin_id);
}

/// A notification as the processing side meets it: the pin it names, the time
/// at which it is processed and the levels read then.
pub struct Arrival {
    pub pin: PinId,
    pub now: u64,
    pub levels: PinLevels,
}

/// The state that processing `arrivals` in order leaves, starting from
/// `state`.
pub open spec fn state_after(state: DispatcherState, arrivals: Seq<Arrival>) -> DispatcherState
    decreases arrivals.len(),
{
    if arrivals.len() == 0 {
        state
    } else {
        let a = arrivals.last();
        step(state_after(state, arrivals.drop_last()), a.pin, a.now, a.levels).0
    }
}

/// The event that `arrivals[i]` resolves to when `arrivals` are processed in
/// order, starting from `state`.
pub open spec fn event_at(state: DispatcherState, arrivals: Seq<Arrival>, i: int) -> Option<
    RotaryKnobEvent,
> {
    let a = arrivals[i];
    step(state_after(state, arrivals.take(i)), a.pin, a.now, a.levels).1
}

/// The phase levels read for the last phase notification among `arrivals`,
/// or `start` if there is none.
pub open spec fn last_sample(start: (bool, bool), arrivals: Seq<Arrival>) -> (bool, bool)
    decreases arrivals.len(),
{
    if arrivals.len() == 0 {
        start
    } else if arrivals.last().pin == PinId::Button {
        last_sample(start, arrivals.drop_last())
    } else {
        (arrivals.last().levels.phase_a, arrivals.last().levels.phase_b)
    }
}

/// The button level read for the last button notification among `arrivals`,
/// or `start` if there is none.
pub open spec fn last_button_level(start: bool, arrivals: Seq<Arrival>) -> bool
    decreases arrivals.len(),
{
    if arrivals.len() == 0 {
        start
    } else if arrivals.last().pin == PinId::Button {
        arrivals.last().levels.button
    } else {
        last_button_level(start, arrivals.drop_last())
    }
}

/// Every phase notification updates the decoder, accepted or not. One that
/// is suppressed does nothing else: no event, and the accepted time stays.
/// One that is accepted becomes the accepted time. No phase notification
/// touches the button level or the queue.
pub proof fn lemma_suppression_reaches_decoder(
    state: DispatcherState,
    pin: PinId,
    now: u64,
    levels: PinLevels,
)
    requires
        pin != PinId::Button,
    ensures
        step(state, pin, now, levels).0.quadrature == (levels.phase_a, levels.phase_b),
        step(state, pin, now, levels).0.button == state.button,
        step(state, pin, now, levels).0.pending == state.pending,
        !gate_accepts(state.last_accepted, now) ==> step(state, pin, now, levels).1 is None
            && step(state, pin, now, levels).0.last_accepted == state.last_accepted,
        gate_accepts(state.last_accepted, now) ==> step(state, pin, now, levels).0.last_accepted
            == now,
{
}

/// A button notification is not debounced: whatever the time, it resolves to
/// the change of the button's level, and it leaves the accepted time, the
/// decoder and the queue alone.
pub proof fn lemma_button_is_not_debounced(state: DispatcherState, now: u64, levels: PinLevels)
    ensures
        step(state, PinId::Button, now, levels).1 == button_event(state.button, levels.button),
        step(state, PinId::Button, now, levels).0 == (DispatcherState {
            button: levels.button,
            ..state
        }),
{
}

/// After any notifications, accepted or suppressed, the decoder remembers the
/// phase levels read for the last phase notification, and the detector the
/// button level read for the last button notification.
pub proof fn lemma_state_follows_every_reading(state: DispatcherState, arrivals: Seq<Arrival>)
    ensures
        state_after(state, arrivals).quadrature == last_sample(state.quadrature, arrivals),
        state_after(state, arrivals).button == last_button_level(state.button, arrivals),
        state_after(state, arrivals).pending == state.pending,
    decreases arrivals.len(),
{
    if arrivals.len() > 0 {
        lemma_state_follows_every_reading(state, arrivals.drop_last());
    }
}

/// The accepted time never moves backwards while notifications are
/// processed.
pub proof fn lemma_last_accepted_monotonic(state: DispatcherState, arrivals: Seq<Arrival>)
    ensures
        state.last_accepted <= state_after(state, arrivals).last_accepted,
    decreases arrivals.len(),
{
    if arrivals.len() > 0 {
        lemma_last_accepted_monotonic(state, arrivals.drop_last());
    }
}

/// An accepted phase notification resolves to the transition table's entry
/// for the sample before it and its own, whether the notification before it
/// was accepted or suppressed; a suppressed one resolves to nothing.
pub proof fn lemma_turns_follow_table(state: DispatcherState, arrivals: Seq<Arrival>, i: int)
    requires
        0 <= i < arrivals.len(),
        arrivals[i].pin != PinId::Button,
    ensures
        event_at(state, arrivals, i) == if gate_accepts(
            state_after(state, arrivals.take(i)).last_accepted,
            arrivals[i].now,
        ) {
            turn_event(
                quadrature_direction(
                    last_sample(state.quadrature, arrivals.take(i)),
                    (arrivals[i].levels.phase_a, arrivals[i].levels.phase_b),
                ),
            )
        } else {
            None
        },
{
    lemma_state_follows_every_reading(state, arrivals.take(i));
}

/// The events that processing `arrivals` in order sends into the channel,
/// starting from `state`.
pub open spec fn emitted(state: DispatcherState, arrivals: Seq<Arrival>) -> Seq<RotaryKnobEvent>
    decreases arrivals.len(),
{
    if arrivals.len() == 0 {
        Seq::empty()
    } else {
        let a = arrivals.last();
        emitted(state, arrivals.drop_last()) + pushed(
            step(state_after(state, arrivals.drop_last()), a.pin, a.now, a.levels).1,
        )
    }
}

/// One move of either side of the dispatcher.
pub enum DispatcherOp {
    /// The side that sees edges queues a notification from a pin.
    Notify(PinId),
    /// The processing side takes a turn at a time, with the pins at levels.
    Turn(u64, PinLevels),
}

/// The state after `ops` were applied in order, starting from `state`.
pub open spec fn state_after_ops(state: DispatcherState, ops: Seq<DispatcherOp>) -> DispatcherState
    decreases ops.len(),
{
    if ops.len() == 0 {
        state
    } else {
        let before = state_after_ops(state, ops.drop_last());
        match ops.last() {
            DispatcherOp::Notify(pin) => queued(before, pin),
            DispatcherOp::Turn(now, levels) => dispatched(before, now, levels).0,
        }
    }
}

/// The events that the turns among `ops` send into the channel, in order.
pub open spec fn emitted_by_ops(state: DispatcherState, ops: Seq<DispatcherOp>) -> Seq<
    RotaryKnobEvent,
>
    decreases ops.len(),
{
    if ops.len() == 0 {
        Seq::empty()
    } else {
        let before = state_after_ops(state, ops.drop_last());
        match ops.last() {
            DispatcherOp::Notify(_) => emitted_by_ops(state, ops.drop_last()),
            DispatcherOp::Turn(now, levels) => emitted_by_ops(state, ops.drop_last()) + pushed(
                dispatched(before, now, levels).1,
            ),
        }
    }
}

/// The notifications that `ops` queue, in order.
pub open spec fn notified(ops: Seq<DispatcherOp>) -> Seq<EventLoopMessage>
    decreases ops.len(),
{
    if ops.len() == 0 {
        Seq::empty()
    } else {
        match ops.last() {
            DispatcherOp::Notify(pin) => notified(ops.drop_last()).push(EventLoopMessage(pin)),
            DispatcherOp::Turn(_, _) => notified(ops.drop_last()),
        }
    }
}

/// The notifications that the turns among `ops` take from the queue, in the
/// order in which they are taken, each with the time and the levels of its
/// turn. A turn that finds nothing waiting takes none.
pub open spec fn processed(state: DispatcherState, ops: Seq<DispatcherOp>) -> Seq<Arrival>
    decreases ops.len(),
{
    if ops.len() == 0 {
        Seq::empty()
    } else {
        let before = state_after_ops(state, ops.drop_last());
        match ops.last() {
            DispatcherOp::Notify(_) => processed(state, ops.drop_last()),
            DispatcherOp::Turn(now, levels) => if before.pending.len() == 0 {
                processed(state, ops.drop_last())
            } else {
                processed(state, ops.drop_last()).push(
                    Arrival { pin: before.pending[0].0, now, levels },
                )
            },
        }
    }
}

/// The messages of `arrivals`, in order.
pub open spec fn messages_of(arrivals: Seq<Arrival>) -> Seq<EventLoopMessage> {
    Seq::new(arrivals.len(), |i: int| EventLoopMessage(arrivals[i].pin))
}

/// However queueing and processing interleave, the notifications are
/// processed one at a time in the order in which they were queued, each
/// exactly once: those processed followed by those that wait are those that
/// waited at first followed by those queued since. The decoder, the button
/// detector and the accepted time are as the workflow leaves them after the
/// processed notifications, in that order; queueing changes none of them. The
/// events sent are those of that workflow, in that order.
pub proof fn lemma_serialized(state: DispatcherState, ops: Seq<DispatcherOp>)
    ensures
        messages_of(processed(state, ops)) + state_after_ops(state, ops).pending == state.pending
            + notified(ops),
        state_after_ops(state, ops).quadrature == state_after(
            state,
            processed(state, ops),
        ).quadrature,
        state_after_ops(state, ops).button == state_after(state, processed(state, ops)).button,
        state_after_ops(state, ops).last_accepted == state_after(
            state,
            processed(state, ops),
        ).last_accepted,
        emitted_by_ops(state, ops) == emitted(state, processed(state, ops)),
    decreases ops.len(),
{
    if ops.len() > 0 {
        let earlier = ops.drop_last();
        lemma_serialized(state, earlier);
        let before = state_after_ops(state, earlier);
        let done = processed(state, earlier);
        match ops.last() {
            DispatcherOp::Notify(pin) => {
                let m = EventLoopMessage(pin);
                assert(state.pending + notified(earlier).push(m) =~= (state.pending + notified(
                    earlier,
                )).push(m));
            },
            DispatcherOp::Turn(now, levels) => {
                if before.pending.len() > 0 {
                    let a = Arrival { pin: before.pending[0].0, now, levels };
                    assert(done.push(a).drop_last() =~= done);
                }
            },
        }
    }
}

} // verus!
