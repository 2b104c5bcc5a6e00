//! The per-tick video scheduling policy.
//!
//! Each playback target holds at most one unit taken out of its channel —
//! the single-frame slot — and once per presentation tick decides, against
//! the shared clock, whether that unit is shown now, dropped as stale, or
//! left in the slot for a later tick. This bounds video latency to the
//! window from `DROP_THRESHOLD_US` behind the clock to `SHOW_TOLERANCE_US`
//! ahead of it without any presentation-side queue.

use crate::clock::GlobalClock;
use crate::channel::{try_recv, RecvAttempt};
use crate::timesource::instant_now;
use crate::units::VideoUnit;
use vstd::assert_seqs_equal;
use vstd::prelude::*;

verus! {

/// How far ahead of the clock a unit may be and still be shown this tick,
/// in microseconds.
pub const SHOW_TOLERANCE_US: i64 = 30_000;

/// How far behind the clock a unit must be to be discarded instead of
/// shown, in microseconds.
pub const DROP_THRESHOLD_US: i64 = 150_000;

/// The three-way decision for the unit in the slot.
#[derive(Clone, Copy, PartialEq, Eq, Structural, Debug)]
pub enum FrameDecision {
    /// Present the unit this tick.
    Show,
    /// Discard the unit: it fell too far behind the clock.
    Drop,
    /// Keep the unit in the slot for a later tick.
    Wait,
}

/// The scheduling policy: drop a unit more than `DROP_THRESHOLD_US` behind
/// the clock, show one due up to `SHOW_TOLERANCE_US` into the future
/// (inclusive), wait on anything further ahead. A shown unit therefore
/// always lies in the window from `now - DROP_THRESHOLD_US` to
/// `now + SHOW_TOLERANCE_US`.
pub open spec fn spec_frame_decision(pts_us: int, now_us: int) -> FrameDecision {
    if pts_us < now_us - DROP_THRESHOLD_US {
        FrameDecision::Drop
    } else if pts_us <= now_us + SHOW_TOLERANCE_US {
        FrameDecision::Show
    } else {
        FrameDecision::Wait
    }
}

/// Decides the fate of a unit with timestamp `pts_us` at playback time
/// `now_us`.
pub fn frame_decision(pts_us: i64, now_us: i64) -> (d: FrameDecision)
    ensures
        d == spec_frame_decision(pts_us as int, now_us as int),
        (d is Drop) <==> pts_us < now_us - DROP_THRESHOLD_US,
        (d is Show) <==> (now_us - DROP_THRESHOLD_US <= pts_us <= now_us + SHOW_TOLERANCE_US),
        (d is Wait) <==> pts_us > now_us + SHOW_TOLERANCE_US,
{
    let pts: i128 = pts_us as i128;
    let now: i128 = now_us as i128;
    if pts < now - (DROP_THRESHOLD_US as i128) {
        FrameDecision::Drop
    } else if pts <= now + (SHOW_TOLERANCE_US as i128) {
        FrameDecision::Show
    } else {
        FrameDecision::Wait
    }
}

/// One playback target: the receiving end of its video channel, its handle
/// on the shared clock, the single-frame slot, and presentation bookkeeping.
pub struct VideoTarget {
    pub receiver: flume::Receiver<VideoUnit>,
    pub clock: GlobalClock,
    /// At most one unit taken from the channel and not yet resolved.
    pub slot: Option<VideoUnit>,
    /// Timestamp of the first unit ever shown.
    pub first_pts_us: Option<i64>,
    /// The instant the first unit was shown, for drift diagnostics.
    pub first_instant: Option<std::time::Instant>,
    /// Timestamp of the unit shown most recently.
    pub last_pts_us: Option<i64>,
}

/// The timestamp a unit carries, if there is a unit.
pub open spec fn pts_of(u: Option<VideoUnit>) -> Option<int> {
    match u {
        Some(x) => Some(x.pts_us as int),
        None => None,
    }
}

impl VideoTarget {
    /// The timestamp-level view of this target's scheduling state, the one
    /// the ordering law `lemma_presented_monotone` speaks about.
    pub open spec fn model(self) -> SchedModel {
        SchedModel {
            slot: pts_of(self.slot),
            last: match self.last_pts_us {
                Some(p) => Some(p as int),
                None => None,
            },
        }
    }

    /// A fresh target with an empty slot and no presentation history.
    pub fn new(receiver: flume::Receiver<VideoUnit>, clock: GlobalClock) -> (t: VideoTarget)
        ensures
            t.receiver == receiver,
            t.slot is None,
            t.first_pts_us is None,
            t.first_instant is None,
            t.last_pts_us is None,
    {
        VideoTarget {
            receiver,
            clock,
            slot: None,
            first_pts_us: None,
            first_instant: None,
            last_pts_us: None,
        }
    }

    /// Refills the slot from the channel, without blocking, only when it is
    /// empty. Bookkeeping and a held unit are never touched.
    pub fn fill_slot(&mut self)
        ensures
            old(self).slot is Some ==> *final(self) == *old(self),
            final(self).receiver == old(self).receiver,
            final(self).clock == old(self).clock,
            final(self).first_pts_us == old(self).first_pts_us,
            final(self).first_instant == old(self).first_instant,
            final(self).last_pts_us == old(self).last_pts_us,
    {
        if self.slot.is_none() {
            match try_recv(&self.receiver) {
                RecvAttempt::Received(u) => {
                    self.slot = Some(u);
                }
                RecvAttempt::Empty => {
                }
                RecvAttempt::Closed => {
                }
            }
        }
    }

    /// Resolves the slot at playback time `now_us`: the held unit is
    /// returned for presentation, discarded, or kept, exactly as the policy
    /// decides. Showing a unit records its timestamp, and the first showing
    /// also records the first-presentation bookkeeping.
    pub fn resolve_slot(&mut self, now_us: i64) -> (shown: Option<VideoUnit>)
        ensures
            final(self).receiver == old(self).receiver,
            final(self).clock == old(self).clock,
            final(self).model() == old(self).model().resolve(now_us as int).0,
            pts_of(shown) == old(self).model().resolve(now_us as int).1,
            old(self).slot is None ==> *final(self) == *old(self) && shown is None,
            old(self).slot matches Some(u) ==> ({
                let d = spec_frame_decision(u.pts_us as int, now_us as int);
                let was_first = old(self).first_pts_us is None;
                &&& d is Show ==> {
                    &&& shown == Some(u)
                    &&& final(self).slot is None
                    &&& final(self).last_pts_us == Some(u.pts_us)
                    &&& final(self).first_pts_us == (if was_first {
                        Some(u.pts_us)
                    } else {
                        old(self).first_pts_us
                    })
                    &&& !was_first ==> final(self).first_instant == old(self).first_instant
                    &&& was_first ==> final(self).first_instant is Some
                }
                &&& d is Drop ==> {
                    &&& shown is None
                    &&& final(self).slot is None
                    &&& final(self).last_pts_us == old(self).last_pts_us
                    &&& final(self).first_pts_us == old(self).first_pts_us
                    &&& final(self).first_instant == old(self).first_instant
                }
                &&& d is Wait ==> shown is None && *final(self) == *old(self)
            }),
    {
        match self.slot.take() {
            None => None,
            Some(u) => {
                match frame_decision(u.pts_us, now_us) {
                    FrameDecision::Show => {
                        self.last_pts_us = Some(u.pts_us);
                        if self.first_pts_us.is_none() {
                            self.first_pts_us = Some(u.pts_us);
                            self.first_instant = Some(instant_now());
                        }
                        Some(u)
                    }
                    FrameDecision::Drop => {
                        None
                    }
                    FrameDecision::Wait => {
                        self.slot = Some(u);
                        None
                    }
                }
            }
        }
    }

    /// One presentation tick: refill the slot if it is empty, then resolve
    /// it. A unit already held is decided here and now — shown, dropped or
    /// kept exactly as the policy says — and whatever comes back was decided
    /// `Show` at `now_us` and is now the most recently presented unit.
    pub fn tick(&mut self, now_us: i64) -> (shown: Option<VideoUnit>)
        ensures
            final(self).receiver == old(self).receiver,
            final(self).clock == old(self).clock,
            shown matches Some(u) ==> spec_frame_decision(u.pts_us as int, now_us as int)
                is Show && final(self).slot is None && final(self).last_pts_us == Some(u.pts_us),
            shown matches Some(u) ==> final(self).first_pts_us == (
            if old(self).first_pts_us is Some {
                old(self).first_pts_us
            } else {
                Some(u.pts_us)
            }),
            shown is None ==> final(self).last_pts_us == old(self).last_pts_us
                && final(self).first_pts_us == old(self).first_pts_us
                && final(self).first_instant == old(self).first_instant,
            old(self).first_pts_us is Some ==> final(self).first_pts_us == old(self).first_pts_us
                && final(self).first_instant == old(self).first_instant,
            old(self).slot matches Some(u) ==> ({
                let d = spec_frame_decision(u.pts_us as int, now_us as int);
                &&& final(self).model() == old(self).model().resolve(now_us as int).0
                &&& pts_of(shown) == old(self).model().resolve(now_us as int).1
                &&& (d is Show ==> shown == Some(u))
                &&& (d is Drop ==> shown is None && final(self).slot is None)
                &&& (d is Wait ==> shown is None && *final(self) == *old(self))
            }),
    {
        self.fill_slot();
        self.resolve_slot(now_us)
    }
}

/// What a draw request carries to create or address one playback target:
/// its identifier, the surface size, the receiving end of the video
/// channel, and a handle on the session's clock.
pub struct VideoCommand {
    pub id: u128,
    pub width: u32,
    pub height: u32,
    pub receiver: flume::Receiver<VideoUnit>,
    pub clock: GlobalClock,
}

impl VideoCommand {
    /// A draw request addressing target `id`: it shares the session's
    /// video channel and its clock.
    pub fn new(
        id: u128,
        width: u32,
        height: u32,
        receiver: &flume::Receiver<VideoUnit>,
        clock: &GlobalClock,
    ) -> (c: VideoCommand)
        ensures
            c.id == id,
            c.width == width,
            c.height == height,
    {
        VideoCommand {
            id,
            width,
            height,
            receiver: crate::channel::clone_receiver(receiver),
            clock: clock.clone(),
        }
    }
}

/// Whether two draw requests address the same settled target: the
/// identifiers must match and the target's clock must be paused, so a
/// running clock never lets two requests pass for equal.
pub fn commands_equivalent(a: &VideoCommand, b: &VideoCommand) -> (r: bool)
    ensures
        r ==> a.id == b.id,
{
    a.id == b.id && a.clock.is_paused()
}

/// A playback time reading brought into the signed domain timestamps use;
/// the clamp engages only after a quarter million years of playback.
pub fn play_time_to_i64(t: u64) -> (r: i64)
    ensures
        t <= i64::MAX ==> r == t,
        t > i64::MAX ==> r == i64::MAX,
{
    if t > i64::MAX as u64 {
        i64::MAX
    } else {
        t as i64
    }
}

/// What one presentation tick may do to a target, whatever its clock read:
/// the channel and clock handles are kept, first-presentation bookkeeping is
/// written at most once and then never changes, and a recorded presentation
/// is never erased.
pub open spec fn tick_frame(pre: VideoTarget, post: VideoTarget) -> bool {
    &&& post.receiver == pre.receiver
    &&& post.clock == pre.clock
    &&& (pre.first_pts_us is Some ==> post.first_pts_us == pre.first_pts_us
        && post.first_instant == pre.first_instant)
    &&& (pre.last_pts_us is Some ==> post.last_pts_us is Some)
}

/// Whether a presented batch holds an entry for the identifier `id`.
pub open spec fn presented_for(out: Seq<(u128, VideoUnit)>, id: u128) -> bool {
    exists|j: int| 0 <= j < out.len() && out[j].0 == id
}

/// Whether some target of `targets` carries the entry's identifier and has
/// the entry's timestamp recorded as its most recent presentation.
pub open spec fn recorded_in(targets: Seq<(u128, VideoTarget)>, entry: (u128, VideoUnit)) -> bool {
    exists|k: int|
        0 <= k < targets.len() && (#[trigger] targets[k]).0 == entry.0
            && targets[k].1.last_pts_us == Some(entry.1.pts_us)
}

/// `recorded_in` survives appending another target.
proof fn lemma_recorded_in_push(
    targets: Seq<(u128, VideoTarget)>,
    entry: (u128, VideoUnit),
    more: (u128, VideoTarget),
)
    requires
        recorded_in(targets, entry),
    ensures
        recorded_in(targets.push(more), entry),
{
    let k0 = choose|k: int|
        0 <= k < targets.len() && (#[trigger] targets[k]).0 == entry.0
            && targets[k].1.last_pts_us == Some(entry.1.pts_us);
    assert(targets.push(more)[k0] == targets[k0]);
}

/// Every playback target of one session, keyed by identifier. Targets are
/// created lazily by the first draw request naming an identifier and are
/// never evicted: a long-running session that keeps minting fresh
/// identifiers grows this registry without bound, so identifiers should be
/// reused for as long as a surface lives.
pub struct VideoPipeline {
    pub targets: Vec<(u128, VideoTarget)>,
}

impl VideoPipeline {
    /// No two targets share an identifier.
    pub open spec fn wf(self) -> bool {
        forall|i: int, j: int|
            0 <= i < j < self.targets@.len() ==> self.targets@[i].0 != self.targets@[j].0
    }

    /// Whether some target carries the identifier `id`.
    pub open spec fn spec_has_target(self, id: u128) -> bool {
        exists|i: int| 0 <= i < self.targets@.len() && self.targets@[i].0 == id
    }

    /// An empty registry.
    pub fn new() -> (p: VideoPipeline)
        ensures
            p.wf(),
            p.targets@.len() == 0,
    {
        VideoPipeline { targets: Vec::new() }
    }

    /// Whether the identifier already has a target.
    pub fn has_target(&self, id: u128) -> (r: bool)
        ensures
            r == self.spec_has_target(id),
    {
        let mut i: usize = 0;
        while i < self.targets.len()
            invariant
                i <= self.targets@.len(),
                forall|k: int| 0 <= k < i ==> self.targets@[k].0 != id,
            decreases self.targets@.len() - i,
        {
            if self.targets[i].0 == id {
                return true;
            }
            i = i + 1;
        }
        false
    }

    /// Creates a target for the request's identifier if none exists yet; a
    /// request whose identifier is already registered changes nothing.
    pub fn ensure_target(&mut self, cmd: VideoCommand)
        requires
            old(self).wf(),
        ensures
            final(self).wf(),
            final(self).spec_has_target(cmd.id),
            old(self).spec_has_target(cmd.id) ==> *final(self) == *old(self),
            !old(self).spec_has_target(cmd.id) ==> {
                &&& final(self).targets@.len() == old(self).targets@.len() + 1
                &&& final(self).targets@.subrange(0, old(self).targets@.len() as int)
                    == old(self).targets@
                &&& final(self).targets@.last().0 == cmd.id
                &&& final(self).targets@.last().1.slot is None
                &&& final(self).targets@.last().1.last_pts_us is None
            },
    {
        if !self.has_target(cmd.id) {
            let t = VideoTarget::new(cmd.receiver, cmd.clock);
            self.targets.push((cmd.id, t));
            proof {
                assert(final(self).targets@.subrange(0, old(self).targets@.len() as int)
                    == old(self).targets@) by {
                    assert_seqs_equal!(
                        self.targets@.subrange(0, old(self).targets@.len() as int)
                            == old(self).targets@
                    );
                }
            }
        }
    }

    /// One presentation tick over every target: each target reads its own
    /// clock, refills its slot and resolves it; the units to present come
    /// back with their target's identifier. Targets keep their identifiers
    /// and their order; each holds `tick_frame` against its old state; every
    /// presented unit's timestamp is recorded as its target's most recent
    /// presentation; and a target nothing was presented for keeps its
    /// recorded timestamp.
    pub fn begin_frame(&mut self) -> (out: Vec<(u128, VideoUnit)>)
        requires
            old(self).wf(),
        ensures
            final(self).wf(),
            final(self).targets@.len() == old(self).targets@.len(),
            forall|k: int|
                0 <= k < final(self).targets@.len()
                    ==> final(self).targets@[k].0 == old(self).targets@[k].0,
            forall|k: int|
                0 <= k < final(self).targets@.len() ==> #[trigger] tick_frame(
                    old(self).targets@[k].1,
                    final(self).targets@[k].1,
                ),
            forall|j: int|
                0 <= j < out@.len() ==> recorded_in(final(self).targets@, #[trigger] out@[j]),
            forall|k: int|
                0 <= k < final(self).targets@.len() && !presented_for(
                    out@,
                    #[trigger] final(self).targets@[k].0,
                ) ==> final(self).targets@[k].1.last_pts_us == old(self).targets@[k].1.last_pts_us,
    {
        let ghost orig = self.targets@;
        let mut done: Vec<(u128, VideoTarget)> = Vec::new();
        let mut out: Vec<(u128, VideoUnit)> = Vec::new();
        while self.targets.len() > 0
            invariant
                done@.len() + self.targets@.len() == orig.len(),
                self.targets@ == orig.skip(done@.len() as int),
                forall|k: int| 0 <= k < done@.len() ==> done@[k].0 == orig[k].0,
                forall|k: int|
                    0 <= k < done@.len() ==> #[trigger] tick_frame(orig[k].1, done@[k].1),
                forall|j: int|
                    0 <= j < out@.len() ==> recorded_in(done@, #[trigger] out@[j]),
                forall|k: int|
                    0 <= k < done@.len() ==> presented_for(out@, #[trigger] done@[k].0)
                        || done@[k].1.last_pts_us == orig[k].1.last_pts_us,
            decreases self.targets@.len(),
        {
            let ghost n = done@.len();
            let ghost done0 = done@;
            let ghost out0 = out@;
            proof {
                assert(orig.skip(n as int)[0] == orig[n as int]);
            }
            let (id, mut tgt) = self.targets.remove(0);
            let ghost tgt0 = tgt;
            let now_us = play_time_to_i64(tgt.clock.now_micros());
            let shown = tgt.tick(now_us);
            proof {
                assert(tgt0 == orig[n as int].1);
                assert(tick_frame(orig[n as int].1, tgt));
            }
            match shown {
                Some(u) => {
                    out.push((id, u));
                }
                None => {
                }
            }
            done.push((id, tgt));
            proof {
                assert(self.targets@ == orig.skip(done@.len() as int)) by {
                    assert_seqs_equal!(self.targets@ == orig.skip(done@.len() as int));
                }
                assert forall|k: int|
                    0 <= k < done@.len() implies #[trigger] tick_frame(
                    orig[k].1,
                    done@[k].1,
                ) by {
                    if k < n {
                        assert(done@[k] == done0[k]);
                        assert(tick_frame(orig[k].1, done0[k].1));
                    } else {
                        assert(done@[k] == (id, tgt));
                    }
                }
                assert forall|j: int|
                    0 <= j < out@.len() implies recorded_in(done@, #[trigger] out@[j]) by {
                    if j < out0.len() {
                        assert(out@[j] == out0[j]);
                        assert(recorded_in(done0, out0[j]));
                        lemma_recorded_in_push(done0, out0[j], (id, tgt));
                    } else {
                        assert(done@[n as int] == (id, tgt));
                        assert(done@[n as int].0 == out@[j].0 && done@[n as int].1.last_pts_us
                            == Some(out@[j].1.pts_us));
                    }
                }
                assert forall|k: int|
                    0 <= k < done@.len() implies presented_for(out@, #[trigger] done@[k].0)
                    || done@[k].1.last_pts_us == orig[k].1.last_pts_us by {
                    if k < n {
                        assert(done@[k] == done0[k]);
                        if presented_for(out0, done0[k].0) {
                            let j0 = choose|j: int| 0 <= j < out0.len() && out0[j].0 == done0[k].0;
                            assert(out@[j0] == out0[j0]);
                            assert(presented_for(out@, done@[k].0));
                        }
                    } else {
                        assert(done@[k] == (id, tgt));
                        if shown is Some {
                            assert(out@[out@.len() - 1].0 == id);
                            assert(presented_for(out@, done@[k].0));
                        } else {
                            assert(tgt.last_pts_us == orig[k].1.last_pts_us);
                        }
                    }
                }
            }
        }
        let ghost done_fin = done@;
        self.targets = done;
        proof {
            assert forall|i: int, j: int|
                0 <= i < j < self.targets@.len() implies self.targets@[i].0
                != self.targets@[j].0 by {
                assert(self.targets@[i].0 == orig[i].0);
                assert(self.targets@[j].0 == orig[j].0);
            }
            assert(self.targets@ == done_fin);
        }
        out
    }
}

/// A target's scheduling state over timestamps alone: the timestamp in the
/// slot and the timestamp last presented.
pub struct SchedModel {
    pub slot: Option<int>,
    pub last: Option<int>,
}

/// A sequence of timestamps in non-decreasing order, which is what a decode
/// pipeline delivers when its source decodes in presentation order.
pub open spec fn sorted(s: Seq<int>) -> bool {
    forall|i: int, j: int| 0 <= i <= j < s.len() ==> s[i] <= s[j]
}

impl SchedModel {
    /// Refilling the slot from the head of the arrival queue, only when the
    /// slot is empty.
    pub open spec fn fill(self, inputs: Seq<int>) -> (SchedModel, Seq<int>) {
        if self.slot is None && inputs.len() > 0 {
            (SchedModel { slot: Some(inputs[0]), last: self.last }, inputs.drop_first())
        } else {
            (self, inputs)
        }
    }

    /// Resolving the slot at playback time `now`, as `spec_frame_decision`
    /// says: the second component is the timestamp presented, if any.
    pub open spec fn resolve(self, now: int) -> (SchedModel, Option<int>) {
        match self.slot {
            None => (self, None),
            Some(p) => {
                let d = spec_frame_decision(p, now);
                if d is Show {
                    (SchedModel { slot: None, last: Some(p) }, Some(p))
                } else if d is Drop {
                    (SchedModel { slot: None, last: self.last }, None)
                } else {
                    (self, None)
                }
            }
        }
    }

    /// One presentation tick: refill, then resolve. Yields the state after
    /// the tick, the arrivals still queued, and the timestamp presented.
    pub open spec fn tick_spec(self, inputs: Seq<int>, now: int) -> (SchedModel, Seq<int>, Option<
        int,
    >) {
        let filled = self.fill(inputs);
        let resolved = filled.0.resolve(now);
        (resolved.0, filled.1, resolved.1)
    }
}

/// The invariant a target keeps while arrivals come in timestamp order: the
/// queue is sorted, and neither the held timestamp nor any queued one is
/// below the timestamp last presented.
pub open spec fn sched_inv(s: SchedModel, inputs: Seq<int>) -> bool {
    &&& sorted(inputs)
    &&& (s.slot matches Some(p) ==> (s.last matches Some(l) ==> l <= p))
    &&& (s.slot matches Some(p) ==> forall|k: int| 0 <= k < inputs.len() ==> p <= inputs[k])
    &&& (s.last matches Some(l) ==> forall|k: int| 0 <= k < inputs.len() ==> l <= inputs[k])
}

/// One tick keeps the invariant, and whatever it presents is not below the
/// timestamp last presented: a single-slot scheduler fed in order never
/// goes back in time.
pub proof fn lemma_tick_keeps_order(s: SchedModel, inputs: Seq<int>, now: int)
    requires
        sched_inv(s, inputs),
    ensures
        ({
            let t = s.tick_spec(inputs, now);
            &&& sched_inv(t.0, t.1)
            &&& (t.2 matches Some(q) ==> t.0.last == Some(q) && (s.last matches Some(l) ==> l
                <= q))
            &&& (t.2 is None ==> t.0.last == s.last)
        }),
{
}

/// The timestamps presented over a run of ticks at playback times `nows`,
/// with `inputs` queued for arrival in order.
pub open spec fn run_presented(s: SchedModel, inputs: Seq<int>, nows: Seq<int>) -> Seq<int>
    decreases nows.len(),
{
    if nows.len() == 0 {
        Seq::empty()
    } else {
        let t = s.tick_spec(inputs, nows[0]);
        match t.2 {
            Some(p) => seq![p] + run_presented(t.0, t.1, nows.drop_first()),
            None => run_presented(t.0, t.1, nows.drop_first()),
        }
    }
}

/// Across any run of ticks, at whatever playback times, a target fed
/// timestamps in order presents timestamps in order, each at or above the
/// one last presented before the run.
pub proof fn lemma_presented_monotone(s: SchedModel, inputs: Seq<int>, nows: Seq<int>)
    requires
        sched_inv(s, inputs),
    ensures
        sorted(run_presented(s, inputs, nows)),
        s.last matches Some(l) ==> forall|k: int|
            0 <= k < run_presented(s, inputs, nows).len() ==> l <= run_presented(
                s,
                inputs,
                nows,
            )[k],
    decreases nows.len(),
{
    if nows.len() > 0 {
        let t = s.tick_spec(inputs, nows[0]);
        lemma_tick_keeps_order(s, inputs, nows[0]);
        lemma_presented_monotone(t.0, t.1, nows.drop_first());
        let rest = run_presented(t.0, t.1, nows.drop_first());
        match t.2 {
            Some(p) => {
                assert(run_presented(s, inputs, nows) == seq![p] + rest);
                assert forall|i: int, j: int|
                    0 <= i <= j < (seq![p] + rest).len() implies (seq![p] + rest)[i] <= (seq![p]
                    + rest)[j] by {
                    if i == 0 && j > 0 {
                        assert((seq![p] + rest)[j] == rest[j - 1]);
                    }
                }
            }
            None => {
            }
        }
    }
}

/// The law for a fresh target: fed timestamps in order, the sequence it
/// presents is in order, so the last presented timestamp never decreases
/// over the run.
pub proof fn lemma_fresh_target_presents_in_order(inputs: Seq<int>, nows: Seq<int>)
    requires
        sorted(inputs),
    ensures
        sorted(run_presented(SchedModel { slot: None, last: None }, inputs, nows)),
{
    lemma_presented_monotone(SchedModel { slot: None, last: None }, inputs, nows);
}

} // verus!
