//! The quadrature decoder: a state machine over samples of the two phase pins.
//!
//! A sample is a pair of levels, phase A first. Turning the knob clockwise
//! walks the Gray-code cycle `00 -> 01 -> 11 -> 10 -> 00`; turning it the
//! other way walks the cycle backwards.
//!
//! The table that turns a transition into a rotation is rotary-encoder-hal's.
//! That crate's own decoder reads its pins itself; this one is handed the
//! levels, so it keeps the previous sample here and asks the crate for the
//! table's entry.

use vstd::prelude::*;

verus! {

/// The rotation that one decode step reports.
#[derive(Debug, Eq, PartialEq, Copy, Clone, Structural)]
pub enum Direction {
    Clockwise,
    CounterClockwise,
    /// No movement, or a movement that cannot be told apart from none.
    NoRotation,
}

/// The sample one clockwise quarter step after `s`.
pub open spec fn clockwise_of(s: (bool, bool)) -> (bool, bool) {
    (s.1, !s.0)
}

/// The sample one counter-clockwise quarter step after `s`.
pub open spec fn counter_clockwise_of(s: (bool, bool)) -> (bool, bool) {
    (!s.1, s.0)
}

/// The Gray-code transition table: the rotation that takes the sample `prev`
/// to the sample `cur`. A repeated sample and a double step, which can only
/// come from a missed edge, are no rotation.
pub open spec fn quadrature_direction(prev: (bool, bool), cur: (bool, bool)) -> Direction {
    if cur == clockwise_of(prev) {
        Direction::Clockwise
    } else if cur == counter_clockwise_of(prev) {
        Direction::CounterClockwise
    } else {
        Direction::NoRotation
    }
}

/// The number under which rotary-encoder-hal files a transition: bits 0 and 1
/// hold phase A and B of the earlier sample, bits 2 and 3 those of the later.
pub open spec fn transition_code(prev: (bool, bool), cur: (bool, bool)) -> int {
    (if prev.0 { 1int } else { 0int }) + (if prev.1 { 2int } else { 0int })
        + (if cur.0 { 4int } else { 0int }) + (if cur.1 { 8int } else { 0int })
}

/// The table of rotary-encoder-hal, by transition code.
pub open spec fn table_direction(code: int) -> Direction {
    if code == 0b0001 || code == 0b0111 || code == 0b1000 || code == 0b1110 {
        Direction::Clockwise
    } else if code == 0b0010 || code == 0b0100 || code == 0b1011 || code == 0b1101 {
        Direction::CounterClockwise
    } else {
        Direction::NoRotation
    }
}

/// The table of rotary-encoder-hal is the Gray-code transition table.
pub proof fn lemma_table_is_gray_code(prev: (bool, bool), cur: (bool, bool))
    ensures
        table_direction(transition_code(prev, cur)) == quadrature_direction(prev, cur),
{
}

/// Looks a transition code up with `rotary_encoder_hal::Direction::from(u8)`.
/// Trusted: the result is the entry of that crate's table, which names four
/// codes as clockwise, four as counter-clockwise and every other byte as no
/// rotation.
#[verifier::external_body]
fn table_lookup(code: u8) -> (direction: Direction)
    ensures
        direction == table_direction(code as int),
{
    match rotary_encoder_hal::Direction::from(code) {
        rotary_encoder_hal::Direction::Clockwise => Direction::Clockwise,
        rotary_encoder_hal::Direction::CounterClockwise => Direction::CounterClockwise,
        rotary_encoder_hal::Direction::None => Direction::NoRotation,
    }
}

/// The decoder's memory: the sample it saw last.
pub struct QuadratureDecoder {
    phase_a: bool,
    phase_b: bool,
}

impl View for QuadratureDecoder {
    type V = (bool, bool);

    closed spec fn view(&self) -> (bool, bool) {
        (self.phase_a, self.phase_b)
    }
}

impl QuadratureDecoder {
    /// A decoder that remembers the levels sampled at start-up.
    pub fn new(phase_a: bool, phase_b: bool) -> (decoder: Self)
        ensures
            decoder@ == (phase_a, phase_b),
    {
        QuadratureDecoder { phase_a, phase_b }
    }

    /// The sample the decoder remembers.
    pub fn levels(&self) -> (levels: (bool, bool))
        ensures
            levels == self@,
    {
        (self.phase_a, self.phase_b)
    }

    /// Takes the current sample, reports the rotation since the remembered
    /// one and remembers the current one instead, whatever the rotation was.
    pub fn decode(&mut self, phase_a: bool, phase_b: bool) -> (direction: Direction)
        ensures
            final(self)@ == (phase_a, phase_b),
            direction == quadrature_direction(old(self)@, (phase_a, phase_b)),
    {
        let mut code: u8 = 0;
        if self.phase_a {
            code = code + 1;
        }
        if self.phase_b {
            code = code + 2;
        }
        if phase_a {
            code = code + 4;
        }
        if phase_b {
            code = code + 8;
        }
        proof {
            lemma_table_is_gray_code(old(self)@, (phase_a, phase_b));
        }
        self.phase_a = phase_a;
        self.phase_b = phase_b;
        table_lookup(code)
    }
}

/// What a decoder that remembers `start` reports for `samples`, decoded one
/// after another: each sample is judged against the one that the call before
/// it left behind.
pub open spec fn decoded(start: (bool, bool), samples: Seq<(bool, bool)>) -> Seq<Direction>
    decreases samples.len(),
{
    if samples.len() == 0 {
        Seq::empty()
    } else {
        seq![quadrature_direction(start, samples[0])] + decoded(samples[0], samples.skip(1))
    }
}

/// The sample taken just before `samples[i]`, or `start` for the first.
pub open spec fn sample_before(start: (bool, bool), samples: Seq<(bool, bool)>, i: int) -> (
    bool,
    bool,
) {
    if i == 0 {
        start
    } else {
        samples[i - 1]
    }
}

/// The transition table applied to each pair of consecutive samples.
pub open spec fn pairwise_directions(start: (bool, bool), samples: Seq<(bool, bool)>) -> Seq<
    Direction,
> {
    Seq::new(
        samples.len(),
        |i: int| quadrature_direction(sample_before(start, samples, i), samples[i]),
    )
}

/// The rotations among `directions`, in order.
pub open spec fn rotations(directions: Seq<Direction>) -> Seq<Direction> {
    directions.filter(|d: Direction| d != Direction::NoRotation)
}

/// Fed any sequence of samples one at a time, the decoder reports for each the
/// table's entry for the sample before it and itself; so the rotations it
/// reports are those that the table gives for consecutive samples.
pub proof fn lemma_decoded_is_pairwise(start: (bool, bool), samples: Seq<(bool, bool)>)
    ensures
        decoded(start, samples) == pairwise_directions(start, samples),
        rotations(decoded(start, samples)) == rotations(pairwise_directions(start, samples)),
    decreases samples.len(),
{
    if samples.len() > 0 {
        lemma_decoded_is_pairwise(samples[0], samples.skip(1));
    }
}

} // verus!
