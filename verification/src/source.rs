//! The frame source's decision skeleton.
//!
//! A frame source wraps a codec and a demuxer and exposes a lazy, finite,
//! non-restartable sequence of decoded frames. Its loop is the same for
//! audio and video: ask the codec for a frame; if it wants input, read one
//! packet and feed it only when it belongs to the source's stream; once the
//! input is exhausted, signal end-of-stream exactly once and from then on
//! only flush the codec's buffered frames; stop on the codec's end-of-stream
//! and on the first transient error, with no retry. The codec and demuxer
//! calls themselves are outside; what stands here is the decision each
//! answer leads to, and the laws the whole loop obeys.

use vstd::assert_seqs_equal;
use vstd::prelude::*;

verus! {

/// What the decode loop just learned: the codec's answer to a frame
/// request, or what the demuxer handed back after a packet read.
#[derive(Clone, Copy, PartialEq, Eq, Structural, Debug)]
pub enum DecodeEvent {
    /// The codec produced a decoded frame.
    FrameReady,
    /// The codec wants more input before it can produce a frame.
    NeedsInput,
    /// A packet was read; the flag says whether it belongs to the source's
    /// stream.
    PacketFor(bool),
    /// The demuxer has no packets left.
    InputExhausted,
    /// The codec reports the stream is over.
    EndOfStream,
    /// The codec reports an error other than end-of-stream.
    DecodeError,
}

/// What the decode loop does next.
#[derive(Clone, Copy, PartialEq, Eq, Structural, Debug)]
pub enum DecodeAction {
    /// Hand the decoded frame out as the next unit of the sequence.
    YieldFrame,
    /// Read the next packet from the demuxer.
    ReadPacket,
    /// Feed the packet just read to the codec: it is the source's stream.
    SendPacket,
    /// Ignore the packet just read: it belongs to another stream.
    SkipPacket,
    /// Signal end-of-stream to the codec, so its buffered frames flush.
    SendEof,
    /// Ask the codec again without reading input: it is flushing.
    Flush,
    /// The sequence ends here: stream over, or a transient error that stops
    /// production with no retry.
    End,
}

/// The decision one loop step takes, given whether end-of-stream was
/// already signalled: the action, and the flag afterwards.
pub open spec fn spec_decode_step(sent_eof: bool, ev: DecodeEvent) -> (DecodeAction, bool) {
    match ev {
        DecodeEvent::FrameReady => (DecodeAction::YieldFrame, sent_eof),
        DecodeEvent::NeedsInput => if sent_eof {
            (DecodeAction::Flush, sent_eof)
        } else {
            (DecodeAction::ReadPacket, sent_eof)
        },
        DecodeEvent::PacketFor(m) => if m {
            (DecodeAction::SendPacket, sent_eof)
        } else {
            (DecodeAction::SkipPacket, sent_eof)
        },
        DecodeEvent::InputExhausted => (DecodeAction::SendEof, true),
        DecodeEvent::EndOfStream => (DecodeAction::End, sent_eof),
        DecodeEvent::DecodeError => (DecodeAction::End, sent_eof),
    }
}

/// One step of the frame-source loop: the action the loop takes next, and
/// the end-of-stream flag afterwards.
pub fn decode_step(sent_eof: bool, ev: DecodeEvent) -> (r: (DecodeAction, bool))
    ensures
        r == spec_decode_step(sent_eof, ev),
        ev is FrameReady ==> r.0 is YieldFrame && r.1 == sent_eof,
        ev is NeedsInput && !sent_eof ==> r.0 is ReadPacket && r.1 == sent_eof,
        ev is NeedsInput && sent_eof ==> r.0 is Flush && r.1 == sent_eof,
        ev matches DecodeEvent::PacketFor(m) ==> r.1 == sent_eof && (m ==> r.0 is SendPacket) && (
        !m ==> r.0 is SkipPacket),
        ev is InputExhausted ==> r.0 is SendEof && r.1,
        ev is EndOfStream ==> r.0 is End && r.1 == sent_eof,
        ev is DecodeError ==> r.0 is End && r.1 == sent_eof,
        sent_eof ==> r.1,
{
    match ev {
        DecodeEvent::FrameReady => (DecodeAction::YieldFrame, sent_eof),
        DecodeEvent::NeedsInput => if sent_eof {
            (DecodeAction::Flush, sent_eof)
        } else {
            (DecodeAction::ReadPacket, sent_eof)
        },
        DecodeEvent::PacketFor(m) => if m {
            (DecodeAction::SendPacket, sent_eof)
        } else {
            (DecodeAction::SkipPacket, sent_eof)
        },
        DecodeEvent::InputExhausted => (DecodeAction::SendEof, true),
        DecodeEvent::EndOfStream => (DecodeAction::End, sent_eof),
        DecodeEvent::DecodeError => (DecodeAction::End, sent_eof),
    }
}

/// Which events the codec and demuxer can hand the loop in a given state:
/// a packet, or the news that input ran out, arrives only in answer to
/// `ReadPacket`, which the loop issues only before end-of-stream is
/// signalled.
pub open spec fn event_fits(sent_eof: bool, ev: DecodeEvent) -> bool {
    match ev {
        DecodeEvent::PacketFor(_) => !sent_eof,
        DecodeEvent::InputExhausted => !sent_eof,
        _ => true,
    }
}

/// Whether every event of a run fits the state it meets.
pub open spec fn events_fit(sent_eof: bool, evs: Seq<DecodeEvent>) -> bool
    decreases evs.len(),
{
    if evs.len() == 0 {
        true
    } else {
        event_fits(sent_eof, evs[0]) && events_fit(
            spec_decode_step(sent_eof, evs[0]).1,
            evs.drop_first(),
        )
    }
}

/// The actions a run of events leads to, in order.
pub open spec fn run_actions(sent_eof: bool, evs: Seq<DecodeEvent>) -> Seq<DecodeAction>
    decreases evs.len(),
{
    if evs.len() == 0 {
        Seq::empty()
    } else {
        seq![spec_decode_step(sent_eof, evs[0]).0] + run_actions(
            spec_decode_step(sent_eof, evs[0]).1,
            evs.drop_first(),
        )
    }
}

/// How often a run signals end-of-stream to the codec.
pub open spec fn eof_signals(actions: Seq<DecodeAction>) -> nat
    decreases actions.len(),
{
    if actions.len() == 0 {
        0
    } else {
        (if actions[0] is SendEof {
            1 as nat
        } else {
            0 as nat
        }) + eof_signals(actions.drop_first())
    }
}

/// How often a run touches the input side: reading, feeding or skipping a
/// packet, or signalling end-of-stream.
pub open spec fn input_actions(actions: Seq<DecodeAction>) -> nat
    decreases actions.len(),
{
    if actions.len() == 0 {
        0
    } else {
        (if actions[0] is ReadPacket || actions[0] is SendPacket || actions[0] is SkipPacket
            || actions[0] is SendEof {
            1 as nat
        } else {
            0 as nat
        }) + input_actions(actions.drop_first())
    }
}

/// Every end-of-stream signal is an input action.
proof fn lemma_eof_signals_le_input(actions: Seq<DecodeAction>)
    ensures
        eof_signals(actions) <= input_actions(actions),
    decreases actions.len(),
{
    if actions.len() > 0 {
        lemma_eof_signals_le_input(actions.drop_first());
    }
}

/// End-of-stream is signalled to the codec at most once over any run the
/// codec and demuxer can produce, and a source that has signalled it never
/// touches the input side again: from then on it only yields, flushes and
/// ends.
pub proof fn lemma_eof_signalled_once(sent_eof: bool, evs: Seq<DecodeEvent>)
    requires
        events_fit(sent_eof, evs),
    ensures
        eof_signals(run_actions(sent_eof, evs)) <= 1,
        sent_eof ==> input_actions(run_actions(sent_eof, evs)) == 0,
    decreases evs.len(),
{
    if evs.len() > 0 {
        let step = spec_decode_step(sent_eof, evs[0]);
        let rest = run_actions(step.1, evs.drop_first());
        lemma_eof_signalled_once(step.1, evs.drop_first());
        lemma_eof_signals_le_input(rest);
        assert((seq![step.0] + rest)[0] == step.0);
        assert((seq![step.0] + rest).drop_first() == rest) by {
            assert_seqs_equal!((seq![step.0] + rest).drop_first() == rest);
        }
    }
}

} // verus!
