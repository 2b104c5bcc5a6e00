//! The pausable playback clock.
//!
//! `ClockState` is the pure state machine: playback time in microseconds as a
//! function of a monotonic reading `mono_us` taken from the session's time
//! source. While running, `now` is the accumulated offset plus the time since
//! the last mark; while paused, `now` is frozen at the offset captured when
//! `pause` happened. Both `pause` and `resume` are idempotent.

use crate::timesource::{instant_now, mono_micros};
use std::sync::Arc;
use vstd::prelude::*;
use vstd::rwlock::{RwLock, RwLockPredicate};

verus! {

/// Pure state of the playback clock. `offset_us` is the playback time
/// accumulated up to the last mark; `last_mark_us` is the monotonic reading
/// taken when the clock was created or last resumed.
#[derive(Clone, Copy, PartialEq, Eq, Structural, Debug)]
pub struct ClockState {
    pub offset_us: u64,
    pub last_mark_us: u64,
    pub paused: bool,
}

/// The two commands a clock accepts.
#[derive(Clone, Copy, PartialEq, Eq, Structural, Debug)]
pub enum ClockOp {
    Pause,
    Resume,
}

impl ClockState {
    /// Well-formed states never owe more playback time than the monotonic
    /// source has produced, which rules out overflow in `now_at`.
    pub open spec fn wf(self) -> bool {
        self.offset_us <= self.last_mark_us
    }

    /// A monotonic reading clamped so it never falls behind the last mark:
    /// the time source is monotonic, so readings below the mark are treated
    /// as the mark itself.
    pub open spec fn mark_floor(self, mono_us: u64) -> u64 {
        if mono_us >= self.last_mark_us {
            mono_us
        } else {
            self.last_mark_us
        }
    }

    /// Playback time read at the monotonic instant `mono_us`.
    pub open spec fn now_spec(self, mono_us: u64) -> int {
        if self.paused {
            self.offset_us as int
        } else {
            self.offset_us + self.mark_floor(mono_us) - self.last_mark_us
        }
    }

    /// The state after `pause` at the monotonic instant `mono_us`: a second
    /// pause is a no-op, a first pause freezes `now` into the offset.
    pub open spec fn pause_spec(self, mono_us: u64) -> ClockState {
        if self.paused {
            self
        } else {
            ClockState {
                offset_us: self.now_spec(mono_us) as u64,
                last_mark_us: self.mark_floor(mono_us),
                paused: true,
            }
        }
    }

    /// The state after `resume` at the monotonic instant `mono_us`: a second
    /// resume is a no-op, a first resume re-bases the mark without touching
    /// the frozen offset.
    pub open spec fn resume_spec(self, mono_us: u64) -> ClockState {
        if self.paused {
            ClockState {
                offset_us: self.offset_us,
                last_mark_us: self.mark_floor(mono_us),
                paused: false,
            }
        } else {
            self
        }
    }

    /// One command applied at one monotonic instant.
    pub open spec fn apply_spec(self, op: ClockOp, mono_us: u64) -> ClockState {
        match op {
            ClockOp::Pause => self.pause_spec(mono_us),
            ClockOp::Resume => self.resume_spec(mono_us),
        }
    }

    /// A fresh running clock whose playback time at `mono_us` is zero.
    pub fn new_at(mono_us: u64) -> (c: ClockState)
        ensures
            c.wf(),
            !c.paused,
            c.now_spec(mono_us) == 0,
            c == (ClockState { offset_us: 0, last_mark_us: mono_us, paused: false }),
    {
        ClockState { offset_us: 0, last_mark_us: mono_us, paused: false }
    }

    /// Playback time at the monotonic reading `mono_us`.
    pub fn now_at(&self, mono_us: u64) -> (t: u64)
        requires
            self.wf(),
        ensures
            t == self.now_spec(mono_us),
            t <= self.mark_floor(mono_us),
    {
        if self.paused {
            self.offset_us
        } else if mono_us >= self.last_mark_us {
            self.offset_us + (mono_us - self.last_mark_us)
        } else {
            self.offset_us
        }
    }

    /// Freeze the clock. Idempotent: pausing a paused clock changes nothing.
    pub fn pause_at(&mut self, mono_us: u64)
        requires
            old(self).wf(),
        ensures
            *final(self) == old(self).pause_spec(mono_us),
            final(self).wf(),
            final(self).paused,
            final(self).now_spec(mono_us) == old(self).now_spec(mono_us),
    {
        if !self.paused {
            if mono_us >= self.last_mark_us {
                self.offset_us = self.offset_us + (mono_us - self.last_mark_us);
                self.last_mark_us = mono_us;
            }
            self.paused = true;
        }
    }

    /// Unfreeze the clock. Idempotent: resuming a running clock changes
    /// nothing.
    pub fn resume_at(&mut self, mono_us: u64)
        requires
            old(self).wf(),
        ensures
            *final(self) == old(self).resume_spec(mono_us),
            final(self).wf(),
            !final(self).paused,
            final(self).now_spec(mono_us) == old(self).now_spec(mono_us),
    {
        if self.paused {
            if mono_us >= self.last_mark_us {
                self.last_mark_us = mono_us;
            }
            self.paused = false;
        }
    }

    /// Whether the clock is frozen.
    pub fn is_paused(&self) -> (p: bool)
        ensures
            p == self.paused,
    {
        self.paused
    }
}

/// With no command in between, reading the clock later never yields an
/// earlier playback time.
pub proof fn lemma_now_monotone(c: ClockState, m1: u64, m2: u64)
    requires
        c.wf(),
        m1 <= m2,
    ensures
        c.now_spec(m1) <= c.now_spec(m2),
{
}

/// A command applied at instant `m` does not move the playback time read at
/// `m`: pause freezes the current value and resume continues from it.
pub proof fn lemma_apply_continuous(c: ClockState, op: ClockOp, m: u64)
    requires
        c.wf(),
    ensures
        c.apply_spec(op, m).now_spec(m) == c.now_spec(m),
        c.apply_spec(op, m).wf(),
        c.apply_spec(op, m).last_mark_us >= c.last_mark_us,
{
}

/// After `pause` at instant `m` the clock stays frozen at the value it showed
/// at `m`, whenever it is read.
pub proof fn lemma_pause_freezes(c: ClockState, m: u64, m_later: u64)
    requires
        c.wf(),
    ensures
        c.pause_spec(m).now_spec(m_later) == c.now_spec(m),
{
}

/// Pausing twice in a row is the same as pausing once.
pub proof fn lemma_pause_idempotent(c: ClockState, m1: u64, m2: u64)
    requires
        c.wf(),
    ensures
        c.pause_spec(m1).pause_spec(m2) == c.pause_spec(m1),
{
}

/// Resuming twice in a row is the same as resuming once.
pub proof fn lemma_resume_idempotent(c: ClockState, m1: u64, m2: u64)
    requires
        c.wf(),
    ensures
        c.resume_spec(m1).resume_spec(m2) == c.resume_spec(m1),
{
}

/// The lock on the shared clock state only ever stores well-formed states.
pub struct ClockStateWf;

impl RwLockPredicate<ClockState> for ClockStateWf {
    open spec fn inv(self, v: ClockState) -> bool {
        v.wf()
    }
}

struct ClockCell {
    origin: std::time::Instant,
    state: RwLock<ClockState, ClockStateWf>,
}

/// The shared playback clock: one `ClockState` behind a read/write lock,
/// read by the audio feeder and the video scheduler, written only by
/// pause and resume. Clones share the same cell and the same origin
/// instant. Readings race against concurrent pause and resume, so these
/// methods promise nothing about the values they return; what each one
/// computes from the state it observes is pinned down by `ClockState`,
/// whose well-formedness the lock maintains.
#[derive(Clone)]
pub struct GlobalClock {
    inner: Arc<ClockCell>,
}

impl GlobalClock {
    /// A running clock starting at playback time zero.
    pub fn new() -> GlobalClock {
        let origin = instant_now();
        let mono = mono_micros(&origin);
        let st = ClockState::new_at(mono);
        GlobalClock {
            inner: Arc::new(
                ClockCell { origin, state: RwLock::new(st, Ghost(ClockStateWf)) },
            ),
        }
    }

    /// The playback time now, in microseconds.
    pub fn now_micros(&self) -> u64 {
        let mono = mono_micros(&self.inner.origin);
        let handle = self.inner.state.acquire_read();
        let st = *handle.borrow();
        handle.release_read();
        st.now_at(mono)
    }

    /// Freeze the playback time. Idempotent.
    pub fn pause(&self) {
        let mono = mono_micros(&self.inner.origin);
        let (mut st, handle) = self.inner.state.acquire_write();
        st.pause_at(mono);
        handle.release_write(st);
    }

    /// Unfreeze the playback time. Idempotent.
    pub fn resume(&self) {
        let mono = mono_micros(&self.inner.origin);
        let (mut st, handle) = self.inner.state.acquire_write();
        st.resume_at(mono);
        handle.release_write(st);
    }

    /// Whether the playback time is frozen.
    pub fn is_paused(&self) -> bool {
        let handle = self.inner.state.acquire_read();
        let paused = handle.borrow().is_paused();
        handle.release_read();
        paused
    }
}

/// A run of commands, each applied at its own monotonic instant.
pub open spec fn run_ops(c: ClockState, evs: Seq<(ClockOp, u64)>) -> ClockState
    decreases evs.len(),
{
    if evs.len() == 0 {
        c
    } else {
        run_ops(c.apply_spec(evs[0].0, evs[0].1), evs.drop_first())
    }
}

/// The instants of a run lie, in order, between `m_lo` and `m_hi`.
pub open spec fn times_chained(evs: Seq<(ClockOp, u64)>, m_lo: u64, m_hi: u64) -> bool
    decreases evs.len(),
{
    if evs.len() == 0 {
        m_lo <= m_hi
    } else {
        m_lo <= evs[0].1 && times_chained(evs.drop_first(), evs[0].1, m_hi)
    }
}

/// Clock monotonicity: across any sequence of pause and resume commands whose
/// instants respect the monotonic time source, a later reading of the clock
/// is never below an earlier one.
pub proof fn lemma_run_monotone(c: ClockState, evs: Seq<(ClockOp, u64)>, m_lo: u64, m_hi: u64)
    requires
        c.wf(),
        times_chained(evs, m_lo, m_hi),
    ensures
        run_ops(c, evs).wf(),
        c.now_spec(m_lo) <= run_ops(c, evs).now_spec(m_hi),
    decreases evs.len(),
{
    if evs.len() == 0 {
        lemma_now_monotone(c, m_lo, m_hi);
    } else {
        let m0 = evs[0].1;
        let c1 = c.apply_spec(evs[0].0, m0);
        lemma_now_monotone(c, m_lo, m0);
        lemma_apply_continuous(c, evs[0].0, m0);
        lemma_run_monotone(c1, evs.drop_first(), m0, m_hi);
    }
}

} // verus!
