//! The button edge detector: it remembers the button's level and reports a
//! press or a release only when the level has changed.

use vstd::prelude::*;

use crate::RotaryKnobEvent;

verus! {

/// The event for a button seen at level `current` after `previous`: none if
/// the level is the same, a press if it is now asserted, else a release.
pub open spec fn button_event(previous: bool, current: bool) -> Option<RotaryKnobEvent> {
    if previous == current {
        None
    } else if current {
        Some(RotaryKnobEvent::ButtonPressed)
    } else {
        Some(RotaryKnobEvent::ButtonReleased)
    }
}

/// Holds the button's level as of the last observation.
pub struct ButtonEdgeDetector {
    asserted: bool,
}

impl View for ButtonEdgeDetector {
    type V = bool;

    closed spec fn view(&self) -> bool {
        self.asserted
    }
}

impl ButtonEdgeDetector {
    /// A detector that takes the button to be released.
    pub fn new() -> (detector: Self)
        ensures
            !detector@,
    {
        ButtonEdgeDetector { asserted: false }
    }

    /// The level as of the last observation.
    pub fn is_pressed(&self) -> (pressed: bool)
        ensures
            pressed == self@,
    {
        self.asserted
    }

    /// Takes the button's current level, reports the change since the last
    /// observation, if there was one, and remembers the current level.
    pub fn observe(&mut self, current_level: bool) -> (event: Option<RotaryKnobEvent>)
        ensures
            event == button_event(old(self)@, current_level),
            final(self)@ == current_level,
    {
        if self.asserted != current_level {
            self.asserted = current_level;
            if current_level {
                Some(RotaryKnobEvent::ButtonPressed)
            } else {
                Some(RotaryKnobEvent::ButtonReleased)
            }
        } else {
            None
        }
    }
}

/// What a detector that remembers `start` reports for `levels`, observed one
/// after another: each observation is judged against the level that the one
/// before it left behind.
pub open spec fn observed(start: bool, levels: Seq<bool>) -> Seq<Option<RotaryKnobEvent>>
    decreases levels.len(),
{
    if levels.len() == 0 {
        Seq::empty()
    } else {
        seq![button_event(start, levels[0])] + observed(levels[0], levels.skip(1))
    }
}

/// The level observed just before `levels[i]`, or `start` for the first.
pub open spec fn level_before(start: bool, levels: Seq<bool>, i: int) -> bool {
    if i == 0 {
        start
    } else {
        levels[i - 1]
    }
}

/// Over any sequence of observations the detector reports one event for each
/// change of level and none where the level repeats, and the event says which
/// way the level went.
pub proof fn lemma_one_event_per_flip(start: bool, levels: Seq<bool>)
    ensures
        observed(start, levels).len() == levels.len(),
        forall|i: int|
            0 <= i < levels.len() ==> #[trigger] observed(start, levels)[i] == button_event(
                level_before(start, levels, i),
                levels[i],
            ),
    decreases levels.len(),
{
    if levels.len() > 0 {
        lemma_one_event_per_flip(levels[0], levels.skip(1));
    }
}

/// While the level stays what the detector remembers, it reports nothing.
pub proof fn lemma_steady_level_is_silent(start: bool, levels: Seq<bool>)
    requires
        forall|i: int| 0 <= i < levels.len() ==> levels[i] == start,
    ensures
        observed(start, levels).len() == levels.len(),
        forall|i: int| 0 <= i < levels.len() ==> #[trigger] observed(start, levels)[i] is None,
{
    lemma_one_event_per_flip(start, levels);
}

/// A sequence of observations in which the level changes once, at `flip`,
/// gives exactly one event, at `flip`: a press if the level went to asserted,
/// a release if it went to released.
pub proof fn lemma_single_flip(start: bool, levels: Seq<bool>, flip: int)
    requires
        0 <= flip < levels.len(),
        forall|i: int| 0 <= i < flip ==> levels[i] == start,
        forall|i: int| flip <= i < levels.len() ==> levels[i] == !start,
    ensures
        observed(start, levels).len() == levels.len(),
        observed(start, levels)[flip] == Some(
            if start {
                RotaryKnobEvent::ButtonReleased
            } else {
                RotaryKnobEvent::ButtonPressed
            },
        ),
        forall|i: int|
            0 <= i < levels.len() && i != flip ==> #[trigger] observed(start, levels)[i] is None,
{
    lemma_one_event_per_flip(start, levels);
}

} // verus!
