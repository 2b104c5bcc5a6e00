//! The audio feed: latency-controlled pacing of decoded blocks into the
//! lock-free ring the output device drains.
//!
//! For each block the feeder compares the block's timestamp with the clock:
//! a block further ahead than the target latency is waited on, one further
//! behind than the target latency is dropped whole, anything else is pushed
//! into the ring sample by sample, discarding what a full ring rejects. The
//! device callback takes one sample per output slot and writes explicit
//! silence when the ring is empty, so it never blocks.

use crate::units::AudioBlock;
use crate::units::AudioParams;
use vstd::prelude::*;

verus! {

/// The target latency between a block's timestamp and the clock, in
/// microseconds.
pub const TARGET_LATENCY_US: i64 = 100_000;

/// How long the feeder sleeps between pacing re-checks, in milliseconds.
pub const FEED_POLL_INTERVAL_MS: u64 = 4;

/// The fewest samples a ring is ever created with.
pub const MIN_RING_CAPACITY: usize = 1024;

/// The sample an empty ring yields to the device: the bit pattern of
/// floating-point zero, explicit silence.
pub const SILENCE_SAMPLE: u32 = 0;

/// The three-way pacing decision for one audio block.
#[derive(Clone, Copy, PartialEq, Eq, Structural, Debug)]
pub enum PaceDecision {
    /// The block is still more than the latency window ahead: sleep and
    /// re-check.
    Wait,
    /// The block fell more than the latency window behind: skip it whole.
    Drop,
    /// The block is due: push its samples into the ring.
    Deliver,
}

/// The pacing policy against a latency window of `latency` microseconds.
pub open spec fn spec_pace_decision(pts_us: int, now_us: int, latency_us: int) -> PaceDecision {
    if pts_us > now_us + latency_us {
        PaceDecision::Wait
    } else if pts_us + latency_us < now_us {
        PaceDecision::Drop
    } else {
        PaceDecision::Deliver
    }
}

/// Decides the fate of a block with timestamp `pts_us` at playback time
/// `now_us`.
pub fn pace_decision(pts_us: i64, now_us: i64, latency_us: i64) -> (d: PaceDecision)
    requires
        latency_us >= 0,
    ensures
        d == spec_pace_decision(pts_us as int, now_us as int, latency_us as int),
        (d is Wait) <==> pts_us > now_us + latency_us,
        (d is Drop) <==> pts_us + latency_us < now_us,
        (d is Deliver) <==> (now_us - latency_us <= pts_us <= now_us + latency_us),
{
    let pts: i128 = pts_us as i128;
    let now: i128 = now_us as i128;
    let latency: i128 = latency_us as i128;
    if pts > now + latency {
        PaceDecision::Wait
    } else if pts + latency < now {
        PaceDecision::Drop
    } else {
        PaceDecision::Deliver
    }
}

#[verifier::external_type_specification]
#[verifier::external_body]
#[verifier::reject_recursive_types(T)]
pub struct ExRingBuffer<T>(ringbuf::RingBuffer<T>);

#[verifier::external_type_specification]
#[verifier::external_body]
#[verifier::reject_recursive_types(T)]
pub struct ExRingProducer<T>(ringbuf::Producer<T>);

#[verifier::external_type_specification]
#[verifier::external_body]
#[verifier::reject_recursive_types(T)]
pub struct ExRingConsumer<T>(ringbuf::Consumer<T>);

/// Relies on ringbuf::RingBuffer::new: an empty ring that can hold
/// `capacity` elements.
#[verifier::external_body]
pub(crate) fn ring_new(capacity: usize) -> ringbuf::RingBuffer<u32> {
    ringbuf::RingBuffer::new(capacity)
}

/// Relies on ringbuf::RingBuffer::split: the producing and consuming ends
/// of the ring, each owned by one thread from then on.
#[verifier::external_body]
pub(crate) fn ring_split(ring: ringbuf::RingBuffer<u32>) -> (ringbuf::Producer<u32>, ringbuf::Consumer<
    u32,
>) {
    ring.split()
}

/// An empty sample ring of the given capacity, split into the producing
/// end the feeder keeps and the consuming end the device callback keeps.
pub fn sample_ring(capacity: usize) -> (ringbuf::Producer<u32>, ringbuf::Consumer<u32>) {
    ring_split(ring_new(capacity))
}

/// Relies on ringbuf::Producer::push: a full ring rejects the element.
/// Whether there is room depends on the concurrent consumer, so nothing
/// more is promised.
#[verifier::external_body]
pub(crate) fn ring_push(prod: &mut ringbuf::Producer<u32>, sample: u32) -> (accepted: bool) {
    prod.push(sample).is_ok()
}

/// Relies on ringbuf::Consumer::pop: the oldest element, if the ring held
/// one at the moment of the call.
#[verifier::external_body]
pub(crate) fn ring_pop(cons: &mut ringbuf::Consumer<u32>) -> (popped: Option<u32>) {
    cons.pop()
}

/// The ring is sized for two seconds of device-format audio, but never
/// fewer than `MIN_RING_CAPACITY` samples.
pub fn ring_capacity(params: &AudioParams) -> (cap: usize)
    requires
        params.sample_rate * params.channels * 2 <= usize::MAX,
    ensures
        cap == (if params.sample_rate * params.channels * 2 < MIN_RING_CAPACITY {
            MIN_RING_CAPACITY as int
        } else {
            params.sample_rate * params.channels * 2
        }),
{
    let c: usize = (params.sample_rate as usize) * (params.channels as usize) * 2;
    if c < MIN_RING_CAPACITY {
        MIN_RING_CAPACITY
    } else {
        c
    }
}

/// Pushes a block's samples into the ring, oldest first, and counts how
/// many the ring accepted; what a full ring rejects is discarded, never
/// retried, so latency cannot grow without bound.
pub fn push_samples(prod: &mut ringbuf::Producer<u32>, samples: &Vec<u32>) -> (pushed: usize)
    ensures
        pushed <= samples@.len(),
{
    let mut pushed: usize = 0;
    let mut i: usize = 0;
    while i < samples.len()
        invariant
            i <= samples@.len(),
            pushed <= i,
        decreases samples@.len() - i,
    {
        if ring_push(prod, samples[i]) {
            pushed = pushed + 1;
        }
        i = i + 1;
    }
    pushed
}

/// What the feeder does with one block at playback time `now_us`: exactly
/// what the pacing policy decides, with `Fed` carrying how many samples the
/// ring accepted.
pub enum FeedOutcome {
    /// The block is early; the caller sleeps briefly and asks again.
    Waiting,
    /// The block was stale and was skipped whole.
    Dropped,
    /// The block was due and its samples were offered to the ring.
    Fed(usize),
}

/// One pacing step for one block. The caller re-invokes it after a short
/// sleep for as long as it answers `Waiting`.
pub fn feed_block_step(
    prod: &mut ringbuf::Producer<u32>,
    block: &AudioBlock,
    now_us: i64,
    latency_us: i64,
) -> (r: FeedOutcome)
    requires
        latency_us >= 0,
    ensures
        (r is Waiting) <==> spec_pace_decision(
            block.pts_us as int,
            now_us as int,
            latency_us as int,
        ) is Wait,
        (r is Dropped) <==> spec_pace_decision(
            block.pts_us as int,
            now_us as int,
            latency_us as int,
        ) is Drop,
        r matches FeedOutcome::Fed(n) ==> spec_pace_decision(
            block.pts_us as int,
            now_us as int,
            latency_us as int,
        ) is Deliver && n <= block.samples@.len(),
{
    match pace_decision(block.pts_us, now_us, latency_us) {
        PaceDecision::Wait => FeedOutcome::Waiting,
        PaceDecision::Drop => FeedOutcome::Dropped,
        PaceDecision::Deliver => FeedOutcome::Fed(push_samples(prod, &block.samples)),
    }
}

/// The sample the device callback writes for one output slot: the popped
/// sample when there is one, explicit silence when there is none.
pub fn silence_or(popped: Option<u32>) -> (s: u32)
    ensures
        popped matches Some(v) ==> s == v,
        popped is None ==> s == SILENCE_SAMPLE,
{
    match popped {
        Some(v) => v,
        None => SILENCE_SAMPLE,
    }
}

/// One output sample for the device callback: never blocks, silent when
/// the ring is empty.
pub fn next_output_sample(cons: &mut ringbuf::Consumer<u32>) -> u32 {
    silence_or(ring_pop(cons))
}

/// Checks a block against the device format, as the feeder does before
/// pushing: a mismatch is reported to the caller for logging and playback
/// goes on.
pub fn block_format_matches(block: &AudioBlock, params: &AudioParams) -> (r: bool)
    ensures
        r == (block.sample_rate == params.sample_rate && block.channels == params.channels),
{
    block.sample_rate == params.sample_rate && block.channels == params.channels
}

} // verus!
