use prism_player::clock::ClockState;
use prism_player::clock::GlobalClock;

#[test]
fn fresh_clock_reads_zero() {
    let c = ClockState::new_at(700);
    assert_eq!(c.now_at(700), 0);
    assert!(!c.is_paused());
}

#[test]
fn running_clock_tracks_elapsed_time() {
    let c = ClockState::new_at(0);
    assert_eq!(c.now_at(250_000), 250_000);
    assert_eq!(c.now_at(1_000_000), 1_000_000);
}

#[test]
fn pause_freezes_at_the_value_just_before() {
    let mut c = ClockState::new_at(0);
    let before = c.now_at(500_000);
    c.pause_at(500_000);
    assert!(c.is_paused());
    assert_eq!(c.now_at(500_000), before);
    assert_eq!(c.now_at(2_000_000), before);
}

#[test]
fn resume_continues_from_the_frozen_value() {
    let mut c = ClockState::new_at(0);
    c.pause_at(400_000);
    c.resume_at(900_000);
    assert!(!c.is_paused());
    assert_eq!(c.now_at(900_000), 400_000);
    assert_eq!(c.now_at(1_000_000), 500_000);
}

#[test]
fn pause_twice_is_pause_once() {
    let mut once = ClockState::new_at(0);
    once.pause_at(300_000);
    let mut twice = ClockState::new_at(0);
    twice.pause_at(300_000);
    twice.pause_at(800_000);
    assert_eq!(once, twice);
}

#[test]
fn resume_twice_is_resume_once() {
    let mut once = ClockState::new_at(0);
    once.pause_at(300_000);
    once.resume_at(600_000);
    let mut twice = ClockState::new_at(0);
    twice.pause_at(300_000);
    twice.resume_at(600_000);
    twice.resume_at(900_000);
    assert_eq!(once, twice);
}

#[test]
fn now_is_nondecreasing_across_pause_resume_sequences() {
    let mut c = ClockState::new_at(0);
    let mut readings: Vec<u64> = Vec::new();
    readings.push(c.now_at(100_000));
    c.pause_at(200_000);
    readings.push(c.now_at(350_000));
    c.resume_at(400_000);
    readings.push(c.now_at(450_000));
    c.pause_at(500_000);
    c.pause_at(600_000);
    readings.push(c.now_at(700_000));
    c.resume_at(800_000);
    c.resume_at(850_000);
    readings.push(c.now_at(900_000));
    readings.push(c.now_at(1_200_000));
    for pair in readings.windows(2) {
        assert!(pair[0] <= pair[1]);
    }
}

#[test]
fn paused_time_does_not_advance_while_running_time_does() {
    let mut c = ClockState::new_at(0);
    c.pause_at(100_000);
    assert_eq!(c.now_at(100_000), c.now_at(5_000_000));
    c.resume_at(5_000_000);
    assert_eq!(c.now_at(5_000_000), 100_000);
    assert_eq!(c.now_at(5_000_001), 100_001);
}

#[test]
fn global_clock_pause_freezes_and_resume_unfreezes() {
    let clock = GlobalClock::new();
    assert!(!clock.is_paused());
    clock.pause();
    assert!(clock.is_paused());
    let a = clock.now_micros();
    let b = clock.now_micros();
    assert_eq!(a, b);
    clock.pause();
    assert_eq!(clock.now_micros(), a);
    clock.resume();
    assert!(!clock.is_paused());
}

#[test]
fn global_clock_readings_never_go_backwards() {
    let clock = GlobalClock::new();
    let mut last = clock.now_micros();
    for _ in 0..1000 {
        let t = clock.now_micros();
        assert!(t >= last);
        last = t;
    }
}

#[test]
fn global_clock_clones_share_the_same_time() {
    let clock = GlobalClock::new();
    let other = clock.clone();
    clock.pause();
    assert!(other.is_paused());
    assert_eq!(clock.now_micros(), other.now_micros());
    other.resume();
    assert!(!clock.is_paused());
}
