use prism_player::clock::GlobalClock;
use prism_player::player::PlayerControl;

#[test]
fn control_starts_playing() {
    let ctl = PlayerControl::new(GlobalClock::new());
    assert!(ctl.is_playing());
    assert!(!ctl.clock.is_paused());
}

#[test]
fn pause_and_resume_drive_the_shared_clock() {
    let mut ctl = PlayerControl::new(GlobalClock::new());
    ctl.pause();
    assert!(!ctl.is_playing());
    assert!(ctl.clock.is_paused());
    let frozen = ctl.clock.now_micros();
    assert_eq!(ctl.clock.now_micros(), frozen);
    ctl.resume();
    assert!(ctl.is_playing());
    assert!(!ctl.clock.is_paused());
}

#[test]
fn toggle_flips_between_the_two_states() {
    let mut ctl = PlayerControl::new(GlobalClock::new());
    ctl.toggle();
    assert!(!ctl.is_playing());
    assert!(ctl.clock.is_paused());
    ctl.toggle();
    assert!(ctl.is_playing());
    assert!(!ctl.clock.is_paused());
}

#[test]
fn pausing_twice_keeps_the_frozen_value() {
    let mut ctl = PlayerControl::new(GlobalClock::new());
    ctl.pause();
    let frozen = ctl.clock.now_micros();
    ctl.pause();
    assert_eq!(ctl.clock.now_micros(), frozen);
    assert!(!ctl.is_playing());
}
