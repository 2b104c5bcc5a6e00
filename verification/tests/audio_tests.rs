use prism_player::audio::block_format_matches;
use prism_player::audio::feed_block_step;
use prism_player::audio::next_output_sample;
use prism_player::audio::pace_decision;
use prism_player::audio::push_samples;
use prism_player::audio::ring_capacity;
use prism_player::audio::sample_ring;
use prism_player::audio::FeedOutcome;
use prism_player::audio::PaceDecision;
use prism_player::audio::MIN_RING_CAPACITY;
use prism_player::audio::SILENCE_SAMPLE;
use prism_player::audio::TARGET_LATENCY_US;
use prism_player::units::AudioBlock;
use prism_player::units::AudioParams;

fn block(pts_us: i64, samples: Vec<u32>) -> AudioBlock {
    AudioBlock { samples, pts_us, sample_rate: 48_000, channels: 2 }
}

#[test]
fn early_block_waits() {
    // Half a second ahead of the clock: far beyond the 100 ms latency.
    let now = 1_000_000;
    let d = pace_decision(now + 500_000, now, TARGET_LATENCY_US);
    assert_eq!(d, PaceDecision::Wait);
}

#[test]
fn stale_block_is_dropped() {
    // 300 ms behind the clock: more than one latency window late.
    let now = 1_000_000;
    let d = pace_decision(now - 300_000, now, TARGET_LATENCY_US);
    assert_eq!(d, PaceDecision::Drop);
}

#[test]
fn due_block_is_delivered() {
    let now = 1_000_000;
    assert_eq!(pace_decision(now, now, TARGET_LATENCY_US), PaceDecision::Deliver);
    // Both window edges are delivered, not waited on or dropped.
    assert_eq!(
        pace_decision(now + TARGET_LATENCY_US, now, TARGET_LATENCY_US),
        PaceDecision::Deliver
    );
    assert_eq!(
        pace_decision(now - TARGET_LATENCY_US, now, TARGET_LATENCY_US),
        PaceDecision::Deliver
    );
    assert_eq!(
        pace_decision(now + TARGET_LATENCY_US + 1, now, TARGET_LATENCY_US),
        PaceDecision::Wait
    );
    assert_eq!(
        pace_decision(now - TARGET_LATENCY_US - 1, now, TARGET_LATENCY_US),
        PaceDecision::Drop
    );
}

#[test]
fn early_block_is_not_pushed_until_the_clock_catches_up() {
    let (mut prod, mut cons) = sample_ring(16);
    let b = block(1_500_000, vec![1, 2, 3]);
    // now = 1.0 s: the block is 0.5 s early and must not touch the ring.
    match feed_block_step(&mut prod, &b, 1_000_000, TARGET_LATENCY_US) {
        FeedOutcome::Waiting => {}
        _ => panic!("expected the early block to wait"),
    }
    assert_eq!(next_output_sample(&mut cons), SILENCE_SAMPLE);
    // The clock advanced to within the latency window: now it is fed.
    match feed_block_step(&mut prod, &b, 1_420_000, TARGET_LATENCY_US) {
        FeedOutcome::Fed(n) => assert_eq!(n, 3),
        _ => panic!("expected the due block to be fed"),
    }
    assert_eq!(next_output_sample(&mut cons), 1);
}

#[test]
fn stale_block_is_never_pushed() {
    let (mut prod, mut cons) = sample_ring(16);
    let b = block(700_000, vec![7, 8]);
    match feed_block_step(&mut prod, &b, 1_000_000, TARGET_LATENCY_US) {
        FeedOutcome::Dropped => {}
        _ => panic!("expected the stale block to be dropped"),
    }
    assert_eq!(next_output_sample(&mut cons), SILENCE_SAMPLE);
}

#[test]
fn full_ring_discards_the_overflow() {
    let (mut prod, mut cons) = sample_ring(4);
    let samples: Vec<u32> = vec![10, 20, 30, 40, 50, 60];
    let pushed = push_samples(&mut prod, &samples);
    assert_eq!(pushed, 4);
    assert_eq!(next_output_sample(&mut cons), 10);
    assert_eq!(next_output_sample(&mut cons), 20);
    assert_eq!(next_output_sample(&mut cons), 30);
    assert_eq!(next_output_sample(&mut cons), 40);
    assert_eq!(next_output_sample(&mut cons), SILENCE_SAMPLE);
}

#[test]
fn empty_ring_yields_explicit_silence() {
    let (_prod, mut cons) = sample_ring(4);
    assert_eq!(next_output_sample(&mut cons), SILENCE_SAMPLE);
    assert_eq!(f32::from_bits(SILENCE_SAMPLE), 0.0f32);
}

#[test]
fn ring_is_sized_for_two_seconds_with_a_floor() {
    assert_eq!(ring_capacity(&AudioParams { sample_rate: 48_000, channels: 2 }), 192_000);
    assert_eq!(
        ring_capacity(&AudioParams { sample_rate: 100, channels: 1 }),
        MIN_RING_CAPACITY
    );
}

#[test]
fn format_mismatch_is_detected() {
    let b = block(0, Vec::new());
    assert!(block_format_matches(&b, &AudioParams { sample_rate: 48_000, channels: 2 }));
    assert!(!block_format_matches(&b, &AudioParams { sample_rate: 44_100, channels: 2 }));
    assert!(!block_format_matches(&b, &AudioParams { sample_rate: 48_000, channels: 1 }));
}
