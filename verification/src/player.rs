//! Playback state: the play/pause face of one session, and the teardown
//! step that lets a backpressured decode thread exit.

use crate::channel::{drain_into_vec, send_blocking, SendAttempt};
use crate::clock::GlobalClock;
use crate::pipeline::DecodeThreadCommand;
use crate::units::VideoUnit;
use vstd::prelude::*;

verus! {

/// The control surface a session exposes to the embedding application:
/// pausing freezes the shared clock every consumer reads, resuming
/// unfreezes it, and the flag tracks which of the two was asked for last.
pub struct PlayerControl {
    pub clock: GlobalClock,
    pub playing: bool,
}

impl PlayerControl {
    /// A session starts playing.
    pub fn new(clock: GlobalClock) -> (c: PlayerControl)
        ensures
            c.playing,
            c.clock == clock,
    {
        PlayerControl { clock, playing: true }
    }

    /// Freezes the shared clock and marks the session not playing.
    pub fn pause(&mut self)
        ensures
            !final(self).playing,
            final(self).clock == old(self).clock,
    {
        self.clock.pause();
        self.playing = false;
    }

    /// Unfreezes the shared clock and marks the session playing.
    pub fn resume(&mut self)
        ensures
            final(self).playing,
            final(self).clock == old(self).clock,
    {
        self.clock.resume();
        self.playing = true;
    }

    /// Pauses when playing, resumes when paused.
    pub fn toggle(&mut self)
        ensures
            final(self).playing == !old(self).playing,
            final(self).clock == old(self).clock,
    {
        if self.playing {
            self.pause();
        } else {
            self.resume();
        }
    }

    /// Whether the session is marked playing.
    pub fn is_playing(&self) -> (p: bool)
        ensures
            p == self.playing,
    {
        self.playing
    }
}

/// The first half of teardown, in the order that avoids deadlock: drain
/// whatever sits in the data channel, so a producer blocked in a timed send
/// gets room to move, and only then send the exit command. The caller joins
/// the decode thread afterwards. Returns how many units were drained and
/// whether the command reached a live channel, for logging.
pub fn prepare_shutdown(
    data_rx: &flume::Receiver<VideoUnit>,
    cmd_tx: &flume::Sender<DecodeThreadCommand>,
) -> (usize, bool) {
    let drained = drain_into_vec(data_rx);
    let delivered = match send_blocking(cmd_tx, DecodeThreadCommand::Exit) {
        SendAttempt::Sent => true,
        SendAttempt::TimedOut(_) => false,
        SendAttempt::Closed(_) => false,
    };
    (drained.len(), delivered)
}

} // verus!
