use rotary_knob::button::ButtonEdgeDetector;
use rotary_knob::RotaryKnobEvent;

#[test]
fn new_detector_is_released() {
    assert!(!ButtonEdgeDetector::new().is_pressed());
}

#[test]
fn steady_released_level_gives_no_event() {
    let mut detector = ButtonEdgeDetector::new();
    for _ in 0..100 {
        assert_eq!(detector.observe(false), None);
        assert!(!detector.is_pressed());
    }
}

#[test]
fn steady_asserted_level_gives_no_event_after_the_press() {
    let mut detector = ButtonEdgeDetector::new();
    assert_eq!(detector.observe(true), Some(RotaryKnobEvent::ButtonPressed));
    for _ in 0..100 {
        assert_eq!(detector.observe(true), None);
        assert!(detector.is_pressed());
    }
}

#[test]
fn press_then_release() {
    let mut detector = ButtonEdgeDetector::new();
    assert_eq!(detector.observe(true), Some(RotaryKnobEvent::ButtonPressed));
    assert!(detector.is_pressed());
    assert_eq!(detector.observe(false), Some(RotaryKnobEvent::ButtonReleased));
    assert!(!detector.is_pressed());
}

#[test]
fn one_event_per_flip() {
    let levels = [false, false, true, true, true, false, true, false, false, true];
    let expected = [
        None,
        None,
        Some(RotaryKnobEvent::ButtonPressed),
        None,
        None,
        Some(RotaryKnobEvent::ButtonReleased),
        Some(RotaryKnobEvent::ButtonPressed),
        Some(RotaryKnobEvent::ButtonReleased),
        None,
        Some(RotaryKnobEvent::ButtonPressed),
    ];
    let mut detector = ButtonEdgeDetector::new();
    for (level, event) in levels.iter().zip(expected.iter()) {
        assert_eq!(detector.observe(*level), *event);
        assert_eq!(detector.is_pressed(), *level);
    }
}

#[test]
fn single_flip_gives_exactly_one_event() {
    let mut detector = ButtonEdgeDetector::new();
    let mut events = Vec::new();
    for i in 0..20 {
        if let Some(event) = detector.observe(i >= 7) {
            events.push((i, event));
        }
    }
    assert_eq!(events, vec![(7, RotaryKnobEvent::ButtonPressed)]);
}
