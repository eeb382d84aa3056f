//! The debounce gate: an edge counts only if enough time has passed since the
//! last edge that counted.
//!
//! Timestamps are microseconds on a monotonic clock.

use vstd::prelude::*;

verus! {

/// The time that must have passed since the last accepted edge: 100 ms.
pub const DEBOUNCE_WINDOW_MICROS: u64 = 100_000;

/// Whether a gate that last accepted at `last_accepted` accepts an edge at
/// `now`. A clock that ran backwards gives a negative distance: suppressed.
pub open spec fn gate_accepts(last_accepted: u64, now: u64) -> bool {
    now - last_accepted >= DEBOUNCE_WINDOW_MICROS
}

/// The timestamp that a gate holds after it has judged an edge at `now`.
pub open spec fn gate_after(last_accepted: u64, now: u64) -> u64 {
    if gate_accepts(last_accepted, now) {
        now
    } else {
        last_accepted
    }
}

/// Holds the time of the last accepted edge.
pub struct DebounceGate {
    last_accepted: u64,
}

impl View for DebounceGate {
    type V = u64;

    closed spec fn view(&self) -> u64 {
        self.last_accepted
    }
}

impl DebounceGate {
    /// A gate that counts `start`, the start-up time, as its last accepted
    /// edge.
    pub fn new(start: u64) -> (gate: Self)
        ensures
            gate@ == start,
    {
        DebounceGate { last_accepted: start }
    }

    /// The time of the last accepted edge.
    pub fn last_accepted(&self) -> (t: u64)
        ensures
            t == self@,
    {
        self.last_accepted
    }

    /// Judges an edge at `now`: accepted once the window has passed, and then
    /// `now` becomes the last accepted time; suppressed before that, and then
    /// nothing changes. The time it holds never decreases.
    pub fn accept(&mut self, now: u64) -> (accepted: bool)
        ensures
            accepted == gate_accepts(old(self)@, now),
            final(self)@ == gate_after(old(self)@, now),
            old(self)@ <= final(self)@,
    {
        if now >= self.last_accepted && now - self.last_accepted >= DEBOUNCE_WINDOW_MICROS {
            self.last_accepted = now;
            true
        } else {
            false
        }
    }
}

/// An edge inside the window after an accepted one is suppressed and leaves
/// the accepted time alone; an edge at or past the window's end, judged next,
/// is accepted and becomes the accepted time.
pub proof fn lemma_window(t0: u64, t1: u64, t2: u64)
    requires
        t0 < t1 < t2,
        t1 - t0 < DEBOUNCE_WINDOW_MICROS,
        t2 - t0 >= DEBOUNCE_WINDOW_MICROS,
    ensures
        !gate_accepts(t0, t1),
        gate_after(t0, t1) == t0,
        gate_accepts(gate_after(t0, t1), t2),
        gate_after(gate_after(t0, t1), t2) == t2,
{
}

/// The accepted time never moves backwards, whatever the edge's time, and it
/// moves exactly when the edge is accepted.
pub proof fn lemma_gate_monotonic(last_accepted: u64, now: u64)
    ensures
        last_accepted <= gate_after(last_accepted, now),
        gate_accepts(last_accepted, now) <==> gate_after(last_accepted, now) != last_accepted,
{
}

} // verus!
