//! A rotary-knob input pipeline: raw edge notifications from a push-button and
//! a two-phase quadrature encoder become debounced knob events, queued in
//! order for a consumer.
//!
//! Every pin level in this crate is `true` while the pin is asserted. The pins
//! idle high through pull-ups, so an asserted pin is one that reads low.

use vstd::prelude::*;

pub mod button;
pub mod channel;
pub mod debounce;
pub mod decoder;
pub mod dispatcher;
pub mod event;

verus! {

/// What the knob did, as the consumer sees it.
#[derive(Debug, Eq, PartialEq, Copy, Clone, Structural)]
pub enum RotaryKnobEvent {
    TurnedClockwise,
    TurnedCounterClockwise,
    ButtonPressed,
    ButtonReleased,
}

/// The input whose edge raised a notification.
#[derive(Debug, Eq, PartialEq, Copy, Clone, Structural)]
pub enum PinId {
    Button,
    A,
    B,
}

} // verus!
