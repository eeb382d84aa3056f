use rotary_knob::decoder::{Direction, QuadratureDecoder};

fn step(prev: (bool, bool), cur: (bool, bool)) -> Direction {
    let mut decoder = QuadratureDecoder::new(prev.0, prev.1);
    decoder.decode(cur.0, cur.1)
}

const S00: (bool, bool) = (false, false);
const S01: (bool, bool) = (false, true);
const S11: (bool, bool) = (true, true);
const S10: (bool, bool) = (true, false);

#[test]
fn clockwise_quarter_steps() {
    assert_eq!(step(S00, S01), Direction::Clockwise);
    assert_eq!(step(S01, S11), Direction::Clockwise);
    assert_eq!(step(S11, S10), Direction::Clockwise);
    assert_eq!(step(S10, S00), Direction::Clockwise);
}

#[test]
fn counter_clockwise_quarter_steps() {
    assert_eq!(step(S00, S10), Direction::CounterClockwise);
    assert_eq!(step(S10, S11), Direction::CounterClockwise);
    assert_eq!(step(S11, S01), Direction::CounterClockwise);
    assert_eq!(step(S01, S00), Direction::CounterClockwise);
}

#[test]
fn repeated_sample_is_no_rotation() {
    assert_eq!(step(S00, S00), Direction::NoRotation);
    assert_eq!(step(S01, S01), Direction::NoRotation);
    assert_eq!(step(S11, S11), Direction::NoRotation);
    assert_eq!(step(S10, S10), Direction::NoRotation);
}

#[test]
fn double_step_is_no_rotation() {
    assert_eq!(step(S00, S11), Direction::NoRotation);
    assert_eq!(step(S11, S00), Direction::NoRotation);
    assert_eq!(step(S01, S10), Direction::NoRotation);
    assert_eq!(step(S10, S01), Direction::NoRotation);
}

#[test]
fn new_decoder_remembers_start_levels() {
    assert_eq!(QuadratureDecoder::new(false, false).levels(), S00);
    assert_eq!(QuadratureDecoder::new(true, false).levels(), S10);
    assert_eq!(QuadratureDecoder::new(false, true).levels(), S01);
    assert_eq!(QuadratureDecoder::new(true, true).levels(), S11);
}

#[test]
fn decode_always_remembers_the_sample() {
    let samples = [S00, S01, S11, S10];
    for prev in samples {
        for cur in samples {
            let mut decoder = QuadratureDecoder::new(prev.0, prev.1);
            decoder.decode(cur.0, cur.1);
            assert_eq!(decoder.levels(), cur);
        }
    }
}

fn table(prev: (bool, bool), cur: (bool, bool)) -> Direction {
    if cur == (prev.1, !prev.0) {
        Direction::Clockwise
    } else if cur == (!prev.1, prev.0) {
        Direction::CounterClockwise
    } else {
        Direction::NoRotation
    }
}

#[test]
fn sequence_decodes_pairwise() {
    let start = S00;
    let samples = vec![S01, S11, S11, S01, S10, S00, S10, S11, S00, S00, S01, S00];
    let expected = vec![
        Direction::Clockwise,
        Direction::Clockwise,
        Direction::NoRotation,
        Direction::CounterClockwise,
        Direction::NoRotation,
        Direction::Clockwise,
        Direction::CounterClockwise,
        Direction::CounterClockwise,
        Direction::NoRotation,
        Direction::NoRotation,
        Direction::Clockwise,
        Direction::CounterClockwise,
    ];
    let mut decoder = QuadratureDecoder::new(start.0, start.1);
    let mut prev = start;
    let mut produced = Vec::new();
    for sample in &samples {
        let direction = decoder.decode(sample.0, sample.1);
        assert_eq!(direction, table(prev, *sample));
        produced.push(direction);
        prev = *sample;
    }
    assert_eq!(produced, expected);
    let rotations: Vec<Direction> =
        produced.into_iter().filter(|d| *d != Direction::NoRotation).collect();
    assert_eq!(rotations.len(), 8);
}

#[test]
fn full_turns_both_ways() {
    let mut decoder = QuadratureDecoder::new(false, false);
    for sample in [S01, S11, S10, S00, S01, S11, S10, S00] {
        assert_eq!(decoder.decode(sample.0, sample.1), Direction::Clockwise);
    }
    for sample in [S10, S11, S01, S00, S10, S11, S01, S00] {
        assert_eq!(decoder.decode(sample.0, sample.1), Direction::CounterClockwise);
    }
}
