use std::collections::VecDeque;
use std::time::{Duration, Instant};
use vstd::prelude::*;

verus! {

/// `std::time::Instant`, carried through as it is: nothing is known of
/// what an instant holds.
#[verifier::external_type_specification]
#[verifier::external_body]
pub struct ExInstant(std::time::Instant);

/// The number of frames whose duration is remembered.
pub const FRAME_TIME_COUNT: usize = 10;

/// Reads the clock with `std::time::Instant::now`. Nothing is claimed of
/// the instant that comes back.
#[verifier::external_body]
fn now() -> Instant {
    Instant::now()
}

/// Subtracts two instants with the `-` of `std::time::Instant`, which gives
/// the time from `earlier` to `later`, and no time at all where `earlier`
/// is the later one. Nothing is claimed of the duration that comes back.
#[verifier::external_body]
fn time_between(later: Instant, earlier: Instant) -> Duration {
    later - earlier
}

/// Asks `std::collections::VecDeque::capacity` how many durations the
/// queue has room for. Nothing is claimed of the number: it is the
/// allocator's to choose.
#[verifier::external_body]
fn room(queue: &VecDeque<Duration>) -> usize {
    queue.capacity()
}

/// The duration of `secs` whole seconds, as `std::time::Duration::from_secs`
/// makes it.
pub uninterp spec fn duration_from_secs(secs: u64) -> Duration;

/// Calls `std::time::Duration::from_secs`, which makes the duration of
/// that many whole seconds.
#[verifier::external_body]
fn from_secs(secs: u64) -> (r: Duration)
    ensures
        r == duration_from_secs(secs),
{
    Duration::from_secs(secs)
}

/// The time state of the game: when the game started, when the last two
/// frames began, and how long each of the last ten frames took.
pub struct TimeState {
    start_instant: Instant,
    last_frame_instant: Instant,
    next_frame_instant: Instant,
    frame_times: VecDeque<Duration>,
}

impl TimeState {
    /// The durations that are remembered, oldest first.
    pub closed spec fn frames(&self) -> Seq<Duration> {
        self.frame_times@
    }

    /// When the game started.
    pub closed spec fn start(&self) -> Instant {
        self.start_instant
    }

    /// When the last frame began.
    pub closed spec fn last_frame(&self) -> Instant {
        self.last_frame_instant
    }

    /// When the next frame began: the clock's reading at the last update.
    pub closed spec fn next_frame(&self) -> Instant {
        self.next_frame_instant
    }

    /// Whether the state is in order: it remembers no more than ten frames.
    pub open spec fn wf(&self) -> bool {
        self.frames().len() <= FRAME_TIME_COUNT
    }

    /// What is remembered after one more frame: the duration of the new
    /// frame joins at the end, and where ten are remembered already the
    /// oldest leaves first.
    pub open spec fn kept(frames: Seq<Duration>) -> Seq<Duration> {
        if frames.len() == FRAME_TIME_COUNT {
            frames.skip(1)
        } else {
            frames
        }
    }

    /// The time since the last frame: the duration that was remembered
    /// last, and no time at all before the first frame.
    pub open spec fn spec_delta(&self) -> Duration {
        if self.frames().len() > 0 {
            self.frames().last()
        } else {
            duration_from_secs(0)
        }
    }

    /// Begins a new frame at `now`, given the time `delta` from the
    /// beginning of the frame before to `now`: the frame that was the next
    /// one is now the last, `now` is the beginning of the next, and `delta`
    /// is remembered as the duration of the frame.
    pub fn begin_frame(&mut self, now: Instant, delta: Duration)
        requires
            old(self).wf(),
        ensures
            final(self).wf(),
            final(self).start() == old(self).start(),
            final(self).last_frame() == old(self).next_frame(),
            final(self).next_frame() == now,
            final(self).frames() == TimeState::kept(old(self).frames()).push(delta),
            final(self).spec_delta() == delta,
    {
        self.last_frame_instant = self.next_frame_instant;
        self.next_frame_instant = now;

        if self.frame_times.len() == FRAME_TIME_COUNT {
            self.frame_times.pop_front();
        }
        self.frame_times.push_back(delta);
        assert(self.frames() =~= TimeState::kept(old(self).frames()).push(delta));
    }

    /// Begins a new frame: the frame that was the next one is now the last,
    /// the clock gives the beginning of the next, and the time between the
    /// two is remembered as the duration of the frame.
    ///
    /// Whatever the clock says, the start of the game stays, the oldest
    /// duration leaves if ten are remembered, and one duration joins.
    pub fn update(&mut self)
        requires
            old(self).wf(),
        ensures
            final(self).wf(),
            final(self).start() == old(self).start(),
            final(self).last_frame() == old(self).next_frame(),
            final(self).frames().len() == TimeState::kept(old(self).frames()).len() + 1,
            final(self).frames().drop_last() == TimeState::kept(old(self).frames()),
            final(self).frames().last() == final(self).spec_delta(),
    {
        let now = now();
        let delta = time_between(now, self.next_frame_instant);
        self.begin_frame(now, delta);
        assert(self.frames().drop_last() =~= TimeState::kept(old(self).frames()));
    }

    /// Get the delta time since the last frame. This is used for consistent updates throughout the
    /// game where different screen refresh rates won't make objects move faster or slower.
    ///
    /// Once a frame has begun, this is the duration that was remembered
    /// last: the time between the beginning of the last frame and that of
    /// the next. Before the first frame no time has passed between the two.
    pub fn delta(&self) -> (r: Duration)
        ensures
            r == self.spec_delta(),
    {
        let remembered: usize = self.frame_times.len();
        if remembered > 0 {
            self.frame_times[remembered - 1]
        } else {
            from_secs(0)
        }
    }

    /// Get the total running time of the game. This is the time since the
    /// state has been created.
    pub fn running(&self) -> Duration {
        time_between(now(), self.start_instant)
    }

    /// The number of frames whose duration is remembered: at most ten.
    pub fn frame_count(&self) -> (r: usize)
        requires
            self.wf(),
        ensures
            r == self.frames().len(),
            r <= FRAME_TIME_COUNT,
    {
        self.frame_times.len()
    }

    /// The durations that are remembered, oldest first.
    pub fn frame_times(&self) -> (r: &VecDeque<Duration>)
        ensures
            r@ == self.frames(),
    {
        &self.frame_times
    }

    /// The number of durations that there is room for without asking for
    /// more memory. Room for ten is asked for at the start, and no more
    /// than ten are ever kept.
    pub fn frame_capacity(&self) -> usize {
        room(&self.frame_times)
    }
}

impl Default for TimeState {
    /// The state of a game that starts now, with no frame remembered.
    fn default() -> (r: TimeState)
        ensures
            r.wf(),
            r.frames() == Seq::<Duration>::empty(),
            r.last_frame() == r.start(),
            r.next_frame() == r.start(),
            r.spec_delta() == duration_from_secs(0),
    {
        let instant = now();
        TimeState {
            start_instant: instant,
            last_frame_instant: instant,
            next_frame_instant: instant,
            frame_times: VecDeque::with_capacity(FRAME_TIME_COUNT),
        }
    }
}

} // verus!
