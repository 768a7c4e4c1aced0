// Timing of the pitch shifter's two overlapping grains.
use oasis::shift::grain::{GrainClock, BUFFER_SIZE, SHIFT_GRAIN_SIZE};

#[test]
fn starts_half_a_grain_apart() {
    let clock = GrainClock::new();
    assert_eq!(clock.write_pos(), 0);
    assert_eq!(clock.grain_counter_a(), 0);
    assert_eq!(clock.grain_counter_b(), SHIFT_GRAIN_SIZE / 2);
}

#[test]
fn grains_restart_on_different_samples() {
    let mut clock = GrainClock::new();
    let mut restarts_a = Vec::new();
    let mut restarts_b = Vec::new();
    for sample in 0..(2 * SHIFT_GRAIN_SIZE) {
        let (a, b) = clock.advance();
        assert!(!(a && b));
        if a {
            restarts_a.push(sample);
        }
        if b {
            restarts_b.push(sample);
        }
        assert_eq!(clock.grain_counter_b(), (clock.grain_counter_a() + SHIFT_GRAIN_SIZE / 2) % SHIFT_GRAIN_SIZE);
    }
    assert_eq!(restarts_a, vec![SHIFT_GRAIN_SIZE - 1, 2 * SHIFT_GRAIN_SIZE - 1]);
    assert_eq!(restarts_b, vec![SHIFT_GRAIN_SIZE / 2 - 1, SHIFT_GRAIN_SIZE + SHIFT_GRAIN_SIZE / 2 - 1]);
}

#[test]
fn write_position_wraps_around_the_buffer() {
    let mut clock = GrainClock::new();
    for _ in 0..BUFFER_SIZE - 1 {
        clock.advance();
    }
    assert_eq!(clock.write_pos(), BUFFER_SIZE - 1);
    clock.advance();
    assert_eq!(clock.write_pos(), 0);
}

#[test]
fn reset_restarts_the_counters() {
    let mut clock = GrainClock::new();
    for _ in 0..100 {
        clock.advance();
    }
    clock.reset();
    assert_eq!(clock.write_pos(), 0);
    assert_eq!(clock.grain_counter_a(), 0);
    assert_eq!(clock.grain_counter_b(), SHIFT_GRAIN_SIZE / 2);
}
