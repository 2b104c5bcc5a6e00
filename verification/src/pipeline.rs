//! Decode-side delivery: pushing timestamped units into a bounded channel
//! under backpressure while staying responsive to an out-of-band exit
//! command.
//!
//! The exec half is the retry loop a decode thread runs for every unit. The
//! spec half models one pipeline together with its channel and consumer, and
//! proves that backpressure loses nothing and that shutdown is possible in
//! every state.

use crate::channel::{try_recv, send_timeout_ms, RecvAttempt, SendAttempt};
use vstd::assert_seqs_equal;
use vstd::prelude::*;

verus! {

/// The out-of-band command a decode thread polls for, on every produced unit
/// and on every backpressure retry.
#[derive(Clone, Copy, PartialEq, Eq, Structural, Debug)]
pub enum DecodeThreadCommand {
    Exit,
}

/// How many decoded video frames the bounded video channel holds in flight.
pub const VIDEO_CHANNEL_CAPACITY: usize = 30;

/// How many resampled audio blocks the bounded audio channel holds in
/// flight.
pub const AUDIO_CHANNEL_CAPACITY: usize = 100;

/// The bounded channel between the video decode pipeline and the
/// scheduler.
pub fn video_channel() -> (flume::Sender<crate::units::VideoUnit>, flume::Receiver<
    crate::units::VideoUnit,
>) {
    crate::channel::channel_bounded(VIDEO_CHANNEL_CAPACITY)
}

/// The bounded channel between the audio decode pipeline and the feeder.
pub fn audio_channel() -> (flume::Sender<crate::units::AudioBlock>, flume::Receiver<
    crate::units::AudioBlock,
>) {
    crate::channel::channel_bounded(AUDIO_CHANNEL_CAPACITY)
}

/// The dedicated command channel into one decode thread; sending a command
/// never blocks.
pub fn command_channel() -> (flume::Sender<DecodeThreadCommand>, flume::Receiver<
    DecodeThreadCommand,
>) {
    crate::channel::channel_unbounded()
}

/// How delivering one unit ended. Every ending other than `Delivered` hands
/// the unit back to the caller: backpressure never loses data.
pub enum DeliverOutcome<T> {
    /// The channel accepted the unit.
    Delivered,
    /// An exit command arrived while the channel was full.
    Interrupted(T),
    /// Every receiver is gone.
    Closed(T),
    /// The attempt budget ran out before the channel had room.
    Expired(T),
}

/// Whether one answer from the command channel is the exit command: only a
/// received `Exit` counts; an empty channel and a closed one both mean the
/// loop keeps running.
pub fn is_exit_command(r: RecvAttempt<DecodeThreadCommand>) -> (b: bool)
    ensures
        b == (r matches RecvAttempt::Received(DecodeThreadCommand::Exit)),
{
    match r {
        RecvAttempt::Received(DecodeThreadCommand::Exit) => true,
        RecvAttempt::Empty => false,
        RecvAttempt::Closed => false,
    }
}

/// Whether an exit command is waiting. Never blocks. What arrives is the
/// channel's; what counts as exit is `is_exit_command`, which this only
/// composes with the poll.
pub fn exit_requested(cmds: &flume::Receiver<DecodeThreadCommand>) -> bool {
    is_exit_command(try_recv(cmds))
}

/// Sends one unit into the bounded channel, waiting `timeout_ms` per
/// attempt and polling the command channel between attempts, for at most
/// `max_attempts` attempts. The unit is returned unchanged whenever it could
/// not be delivered, so a unit in flight is never lost.
pub fn deliver_with_retry<T>(
    tx: &flume::Sender<T>,
    cmds: &flume::Receiver<DecodeThreadCommand>,
    value: T,
    timeout_ms: u64,
    max_attempts: u64,
) -> (r: DeliverOutcome<T>)
    requires
        max_attempts >= 1,
    ensures
        r matches DeliverOutcome::Interrupted(v) ==> v == value,
        r matches DeliverOutcome::Closed(v) ==> v == value,
        r matches DeliverOutcome::Expired(v) ==> v == value,
{
    let mut pending: T = value;
    let mut attempts_left: u64 = max_attempts;
    loop
        invariant
            pending == value,
            attempts_left >= 1,
        decreases attempts_left,
    {
        match send_timeout_ms(tx, pending, timeout_ms) {
            SendAttempt::Sent => {
                return DeliverOutcome::Delivered;
            }
            SendAttempt::TimedOut(v) => {
                if exit_requested(cmds) {
                    return DeliverOutcome::Interrupted(v);
                }
                if attempts_left == 1 {
                    return DeliverOutcome::Expired(v);
                }
                attempts_left = attempts_left - 1;
                pending = v;
            }
            SendAttempt::Closed(v) => {
                return DeliverOutcome::Closed(v);
            }
        }
    }
}

/// A model of one decode pipeline: the units its source has still to
/// produce, the unit it holds for sending, the bounded channel, and what the
/// consumer has taken, each unit stood for by a number.
pub struct PipeModel {
    /// Units the frame source has not yet produced, in order.
    pub source: Seq<int>,
    /// The unit pulled from the source and not yet accepted by the channel.
    pub pending: Option<int>,
    /// Units in flight in the bounded channel, oldest first.
    pub buffer: Seq<int>,
    /// Units the consumer has received, in order.
    pub received: Seq<int>,
    /// The channel's capacity.
    pub cap: nat,
    /// Whether the pipeline has answered an exit command.
    pub exited: bool,
}

/// One thing that can happen to the pipeline.
#[derive(Clone, Copy, PartialEq, Eq, Structural, Debug)]
pub enum PipeEvent {
    /// The pipeline pulls the next unit from its source.
    Fetch,
    /// A send attempt succeeds: the channel has room.
    SendOk,
    /// A send attempt times out on a full channel; the unit is kept.
    SendTimeout,
    /// The consumer takes the oldest unit out of the channel.
    Consume,
    /// The exit command arrives.
    Exit,
}

impl PipeModel {
    /// The channel never holds more than its capacity.
    pub open spec fn wf(self) -> bool {
        self.buffer.len() <= self.cap
    }

    /// The held unit as a sequence of zero or one elements.
    pub open spec fn pending_seq(self) -> Seq<int> {
        match self.pending {
            Some(u) => seq![u],
            None => Seq::empty(),
        }
    }

    /// Every unit of the stream, wherever it currently sits, in stream
    /// order: received first, then in flight, then held, then unproduced.
    pub open spec fn trace(self) -> Seq<int> {
        self.received + self.buffer + self.pending_seq() + self.source
    }

    /// When an event can happen. `Exit` can happen in every state: a
    /// pipeline blocked on a full channel still answers it.
    pub open spec fn event_enabled(self, e: PipeEvent) -> bool {
        match e {
            PipeEvent::Fetch => !self.exited && self.pending is None && self.source.len() > 0,
            PipeEvent::SendOk => !self.exited && self.pending is Some && self.buffer.len()
                < self.cap,
            PipeEvent::SendTimeout => !self.exited && self.pending is Some && self.buffer.len()
                >= self.cap,
            PipeEvent::Consume => self.buffer.len() > 0,
            PipeEvent::Exit => true,
        }
    }

    /// The state after an event.
    pub open spec fn step(self, e: PipeEvent) -> PipeModel {
        match e {
            PipeEvent::Fetch => PipeModel {
                source: self.source.drop_first(),
                pending: Some(self.source[0]),
                buffer: self.buffer,
                received: self.received,
                cap: self.cap,
                exited: self.exited,
            },
            PipeEvent::SendOk => PipeModel {
                source: self.source,
                pending: None,
                buffer: self.buffer.push(self.pending->0),
                received: self.received,
                cap: self.cap,
                exited: self.exited,
            },
            PipeEvent::SendTimeout => self,
            PipeEvent::Consume => PipeModel {
                source: self.source,
                pending: self.pending,
                buffer: self.buffer.drop_first(),
                received: self.received.push(self.buffer[0]),
                cap: self.cap,
                exited: self.exited,
            },
            PipeEvent::Exit => PipeModel {
                source: self.source,
                pending: self.pending,
                buffer: self.buffer,
                received: self.received,
                cap: self.cap,
                exited: true,
            },
        }
    }
}

/// No single event loses, duplicates or reorders a unit, and the channel
/// stays within its capacity.
pub proof fn lemma_step_preserves_trace(m: PipeModel, e: PipeEvent)
    requires
        m.wf(),
        m.event_enabled(e),
    ensures
        m.step(e).wf(),
        m.step(e).trace() == m.trace(),
{
    let n = m.step(e);
    match e {
        PipeEvent::Fetch => {
            assert_seqs_equal!(n.trace() == m.trace());
        }
        PipeEvent::SendOk => {
            assert_seqs_equal!(n.trace() == m.trace());
        }
        PipeEvent::SendTimeout => {
        }
        PipeEvent::Consume => {
            assert_seqs_equal!(n.trace() == m.trace());
        }
        PipeEvent::Exit => {
            assert_seqs_equal!(n.trace() == m.trace());
        }
    }
}

/// A run of events, each enabled when it happens.
pub open spec fn run_events(m: PipeModel, es: Seq<PipeEvent>) -> PipeModel
    decreases es.len(),
{
    if es.len() == 0 {
        m
    } else {
        run_events(m.step(es[0]), es.drop_first())
    }
}

/// Whether every event of the run is enabled in the state it meets.
pub open spec fn events_enabled(m: PipeModel, es: Seq<PipeEvent>) -> bool
    decreases es.len(),
{
    if es.len() == 0 {
        true
    } else {
        m.event_enabled(es[0]) && events_enabled(m.step(es[0]), es.drop_first())
    }
}

/// Backpressure preserves data: across any run of fetches, sends, timeouts,
/// consumptions and exits, the stream as a whole — received, in flight, held
/// and unproduced, in order — is exactly what it started as.
pub proof fn lemma_run_preserves_trace(m: PipeModel, es: Seq<PipeEvent>)
    requires
        m.wf(),
        events_enabled(m, es),
    ensures
        run_events(m, es).wf(),
        run_events(m, es).trace() == m.trace(),
    decreases es.len(),
{
    if es.len() > 0 {
        lemma_step_preserves_trace(m, es[0]);
        lemma_run_preserves_trace(m.step(es[0]), es.drop_first());
    }
}

/// When a run ends with the source exhausted, nothing held and the channel
/// drained, the consumer has received every unit the source produced, in
/// order.
pub proof fn lemma_finished_run_received_all(m: PipeModel, es: Seq<PipeEvent>)
    requires
        m.wf(),
        m.received.len() == 0,
        events_enabled(m, es),
        run_events(m, es).source.len() == 0,
        run_events(m, es).pending is None,
        run_events(m, es).buffer.len() == 0,
    ensures
        run_events(m, es).received == m.trace(),
{
    lemma_run_preserves_trace(m, es);
    let f = run_events(m, es);
    assert_seqs_equal!(f.received == f.trace());
}

/// Shutdown is possible in every state: whatever the channel holds, the exit
/// command is enabled, stops the pipeline, and loses nothing — in particular
/// a pipeline blocked on a full channel keeps the unit it holds.
pub proof fn lemma_exit_always_possible(m: PipeModel)
    requires
        m.wf(),
    ensures
        m.event_enabled(PipeEvent::Exit),
        m.step(PipeEvent::Exit).exited,
        m.step(PipeEvent::Exit).trace() == m.trace(),
        m.step(PipeEvent::Exit).pending == m.pending,
{
    lemma_step_preserves_trace(m, PipeEvent::Exit);
}

/// After exit nothing is produced or sent any more; only the consumer side
/// still drains what is in flight.
pub proof fn lemma_exit_stops_production(m: PipeModel)
    requires
        m.exited,
    ensures
        !m.event_enabled(PipeEvent::Fetch),
        !m.event_enabled(PipeEvent::SendOk),
        !m.event_enabled(PipeEvent::SendTimeout),
{
}

} // verus!
