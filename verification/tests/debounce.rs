use rotary_knob::debounce::{DebounceGate, DEBOUNCE_WINDOW_MICROS};

#[test]
fn window_is_one_hundred_milliseconds() {
    assert_eq!(DEBOUNCE_WINDOW_MICROS, 100_000);
}

#[test]
fn new_gate_holds_start_time() {
    assert_eq!(DebounceGate::new(0).last_accepted(), 0);
    assert_eq!(DebounceGate::new(1_234_567).last_accepted(), 1_234_567);
}

#[test]
fn edge_inside_window_is_suppressed_then_edge_past_it_accepted() {
    let t0: u64 = 5_000_000;
    let t1: u64 = t0 + 40_000;
    let t2: u64 = t0 + 150_000;
    let mut gate = DebounceGate::new(t0);
    assert!(!gate.accept(t1));
    assert_eq!(gate.last_accepted(), t0);
    assert!(gate.accept(t2));
    assert_eq!(gate.last_accepted(), t2);
}

#[test]
fn window_boundary() {
    let mut gate = DebounceGate::new(1_000);
    assert!(!gate.accept(100_999));
    assert_eq!(gate.last_accepted(), 1_000);
    assert!(gate.accept(101_000));
    assert_eq!(gate.last_accepted(), 101_000);
}

#[test]
fn suppressed_edges_do_not_extend_the_window() {
    let mut gate = DebounceGate::new(0);
    assert!(!gate.accept(30_000));
    assert!(!gate.accept(60_000));
    assert!(!gate.accept(90_000));
    assert_eq!(gate.last_accepted(), 0);
    assert!(gate.accept(100_000));
    assert_eq!(gate.last_accepted(), 100_000);
    assert!(!gate.accept(199_999));
    assert!(gate.accept(200_000));
}

#[test]
fn same_instant_is_suppressed() {
    let mut gate = DebounceGate::new(700);
    assert!(!gate.accept(700));
    assert_eq!(gate.last_accepted(), 700);
}

#[test]
fn clock_that_ran_backwards_is_suppressed() {
    let mut gate = DebounceGate::new(500_000);
    assert!(!gate.accept(0));
    assert!(!gate.accept(499_999));
    assert_eq!(gate.last_accepted(), 500_000);
}

#[test]
fn extreme_timestamps() {
    let mut gate = DebounceGate::new(0);
    assert!(gate.accept(u64::MAX));
    assert_eq!(gate.last_accepted(), u64::MAX);
    assert!(!gate.accept(u64::MAX));
    assert!(!gate.accept(0));
    assert_eq!(gate.last_accepted(), u64::MAX);
}

#[test]
fn gate_time_never_decreases() {
    let times: [u64; 8] = [50_000, 100_000, 90_000, 250_000, 10, 349_999, 350_000, 0];
    let mut gate = DebounceGate::new(0);
    let mut last: u64 = gate.last_accepted();
    for now in times {
        let accepted = gate.accept(now);
        assert!(gate.last_accepted() >= last);
        assert_eq!(accepted, gate.last_accepted() == now && now != last);
        last = gate.last_accepted();
    }
    assert_eq!(last, 350_000);
}
