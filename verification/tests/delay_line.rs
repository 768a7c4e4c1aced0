// The delay line: what a read gives back of earlier writes.
use oasis::dsp::delay::DelayLine;

#[test]
fn test_delay_basic() {
    let mut dl = DelayLine::new(8, 0.0_f32);
    dl.write(1.0);
    dl.write(0.0);
    dl.write(0.0);
    let out = dl.tap(3);
    assert!((out - 1.0).abs() < 1e-6, "Expected 1.0, got {out}");
}

#[test]
fn test_delay_reset() {
    let mut dl = DelayLine::new(4, 0.0_f32);
    dl.write(1.0);
    dl.reset(0.0);
    let out = dl.tap(1);
    assert!((out).abs() < 1e-6);
}

#[test]
fn tap_reads_the_sample_written_that_many_writes_ago() {
    let mut dl = DelayLine::new(5, 0_i32);
    for x in 1..=12 {
        dl.write(x);
    }
    assert_eq!(dl.tap(1), 12);
    assert_eq!(dl.tap(2), 11);
    assert_eq!(dl.tap(5), 8);
    assert_eq!(dl.tap(0), 8);
}

#[test]
fn unwritten_slots_are_silent() {
    let mut dl = DelayLine::new(4, -1_i32);
    dl.write(7);
    assert_eq!(dl.tap(1), 7);
    assert_eq!(dl.tap(2), -1);
    assert_eq!(dl.tap(4), -1);
}

#[test]
fn zero_capacity_becomes_one() {
    let mut dl = DelayLine::new(0, 0_u8);
    assert_eq!(dl.capacity(), 1);
    dl.write(3);
    dl.write(4);
    assert_eq!(dl.tap(1), 4);
    assert_eq!(dl.tap(0), 4);
}

#[test]
fn resize_to_new_length_silences() {
    let mut dl = DelayLine::new(4, 0_i32);
    dl.write(9);
    dl.resize(6, 0);
    assert_eq!(dl.capacity(), 6);
    assert_eq!(dl.tap(1), 0);
}

#[test]
fn resize_to_same_length_keeps_samples() {
    let mut dl = DelayLine::new(4, 0_i32);
    dl.write(9);
    dl.resize(4, 0);
    assert_eq!(dl.tap(1), 9);
    let mut small = DelayLine::new(1, 0_i32);
    small.write(5);
    small.resize(0, 0);
    assert_eq!(small.tap(1), 5);
}
