//! Frame timing: instantaneous and windowed-average frame duration plus total
//! elapsed time, over a fixed-capacity ring buffer of the most recent frame
//! durations with a running sum for constant-time averaging.
//!
//! All durations are counted in nanoseconds.  A ghost history of every
//! recorded duration ties the ring buffer, the frame count and the running
//! sum together: the count is `min(recorded, BUFFER_SIZE)` and the sum is the
//! sum of the last `min(recorded, BUFFER_SIZE)` recorded durations.

use vstd::prelude::*;
use vstd::math::min;

verus! {

/// The largest duration a single frame can record, in nanoseconds.
pub const MAX_FRAME_NANOS: u64 = 0xffff_ffff_ffff_ffff;

#[verifier::external_type_specification]
#[verifier::external_body]
pub struct ExInstant(std::time::Instant);

/// Relies on `std::time::Instant::now`: an opaque timestamp of the monotonic
/// clock.
#[verifier::external_body]
fn instant_now() -> std::time::Instant {
    std::time::Instant::now()
}

/// Relies on `std::time::Instant::duration_since`: the time elapsed between
/// two timestamps, zero if `earlier` is in fact the later one.
#[verifier::external_body]
fn duration_between(earlier: &std::time::Instant, later: &std::time::Instant) -> std::time::Duration {
    later.duration_since(*earlier)
}

/// Relies on `std::time::Duration::as_nanos`: the duration as a total count
/// of nanoseconds.
#[verifier::external_body]
fn duration_nanos(d: &std::time::Duration) -> u128 {
    d.as_nanos()
}

/// The sum of a sequence of durations.
pub open spec fn sum_nanos(s: Seq<u64>) -> int
    decreases s.len(),
{
    if s.len() == 0 {
        0
    } else {
        sum_nanos(s.drop_last()) + s.last()
    }
}

pub proof fn lemma_sum_bounds(s: Seq<u64>)
    ensures
        0 <= sum_nanos(s) <= s.len() * MAX_FRAME_NANOS,
    decreases s.len(),
{
    if s.len() > 0 {
        lemma_sum_bounds(s.drop_last());
    }
}

pub proof fn lemma_sum_push(s: Seq<u64>, x: u64)
    ensures
        sum_nanos(s.push(x)) == sum_nanos(s) + x,
{
    assert(s.push(x).drop_last() =~= s);
}

pub proof fn lemma_sum_drop_first(s: Seq<u64>)
    requires
        s.len() >= 1,
    ensures
        sum_nanos(s) == s[0] + sum_nanos(s.skip(1)),
    decreases s.len(),
{
    if s.len() == 1 {
        assert(s.skip(1) =~= Seq::<u64>::empty());
        assert(s.drop_last() =~= Seq::<u64>::empty());
        assert(sum_nanos(s) == sum_nanos(s.drop_last()) + s.last());
        assert(s.last() == s[0]);
    } else {
        assert(sum_nanos(s) == sum_nanos(s.drop_last()) + s.last());
        lemma_sum_drop_first(s.drop_last());
        assert(s.drop_last().skip(1) =~= s.skip(1).drop_last());
        assert(s.skip(1).last() == s.last());
        assert(s.drop_last()[0] == s[0]);
        assert(sum_nanos(s.skip(1)) == sum_nanos(s.skip(1).drop_last()) + s.skip(1).last());
    }
}

/// The buffer slot that holds the `j`-th oldest duration of the current
/// window, for a window of `w` entries ending just before slot `idx` in a
/// buffer of `n` slots.
spec fn ring_pos(idx: int, w: int, n: int, j: int) -> int {
    let p = idx + n - w + j;
    if p < n {
        p
    } else {
        p - n
    }
}

/// Windowed frame-time metrics over the `BUFFER_SIZE` most recent frames.
pub struct PerformanceMetrics<const BUFFER_SIZE: usize> {
    last_frame: Option<std::time::Instant>,
    curr_frame_time: u64,
    time_since_start: u128,
    frame_time_buffer: Vec<u64>,
    idx: usize,
    n_frames: usize,
    summed_frame_time: u128,
    history: Ghost<Seq<u64>>,
}

impl<const BUFFER_SIZE: usize> PerformanceMetrics<BUFFER_SIZE> {
    /// Every frame duration ever recorded, oldest first.
    pub closed spec fn recorded(self) -> Seq<u64> {
        self.history@
    }

    /// The durations still inside the averaging window: the most recent
    /// `min(recorded, BUFFER_SIZE)` entries.
    pub open spec fn window(self) -> Seq<u64> {
        self.recorded().skip(self.recorded().len() - self.frames_in_window())
    }

    /// Whether a timestamp anchor is set, so that the next call can measure
    /// a duration against it.
    pub closed spec fn anchored(self) -> bool {
        self.last_frame is Some
    }

    pub closed spec fn frames_in_window(self) -> int {
        self.n_frames as int
    }

    pub closed spec fn total_nanos(self) -> int {
        self.time_since_start as int
    }

    pub closed spec fn current_nanos(self) -> int {
        self.curr_frame_time as int
    }

    pub closed spec fn windowed_sum(self) -> int {
        self.summed_frame_time as int
    }

    /// The ring buffer, count and running sum agree with the history.
    pub closed spec fn wf(self) -> bool {
        let n = BUFFER_SIZE as int;
        let len = self.recorded().len() as int;
        &&& self.frame_time_buffer@.len() == n
        &&& 1 <= n
        &&& self.idx < n
        &&& self.n_frames == min(len, n)
        &&& (len < n ==> self.idx == len)
        &&& self.summed_frame_time == sum_nanos(self.window())
        &&& (forall|j: int|
            0 <= j < self.n_frames ==> self.frame_time_buffer@[ring_pos(
                self.idx as int,
                self.n_frames as int,
                n,
                j,
            )] == self.window()[j])
        &&& self.curr_frame_time == if len > 0 {
            self.recorded().last()
        } else {
            0u64
        }
    }

    /// How `record_frame` changes the metrics: the duration is appended to
    /// the history, becomes the instantaneous frame time, enters the window
    /// (evicting the oldest entry once the window is full) and is added to
    /// the total elapsed time, which saturates rather than wraps.
    pub open spec fn records(pre: Self, post: Self, delta: u64) -> bool {
        &&& post.recorded() == pre.recorded().push(delta)
        &&& post.current_nanos() == delta
        &&& post.frames_in_window() == min(pre.recorded().len() as int + 1, BUFFER_SIZE as int)
        &&& post.total_nanos() == if pre.total_nanos() + delta <= u128::MAX {
            pre.total_nanos() + delta
        } else {
            u128::MAX as int
        }
        &&& post.anchored() == pre.anchored()
    }

    /// In any reachable state, the window holds exactly
    /// `min(recorded, BUFFER_SIZE)` frames, and the running sum is exactly
    /// the sum of the last `min(recorded, BUFFER_SIZE)` recorded durations.
    pub proof fn lemma_window_tracks_history(self)
        requires
            self.wf(),
        ensures
            self.frames_in_window() == min(self.recorded().len() as int, BUFFER_SIZE as int),
            self.windowed_sum() == sum_nanos(self.window()),
            self.window() == self.recorded().skip(
                self.recorded().len() - min(self.recorded().len() as int, BUFFER_SIZE as int),
            ),
    {
    }

    /// Pushes one measured frame duration into the metrics.
    pub fn record_frame(&mut self, delta: u64)
        requires
            old(self).wf(),
        ensures
            final(self).wf(),
            Self::records(*old(self), *final(self), delta),
            final(self).windowed_sum() == sum_nanos(final(self).window()),
    {
        proof {
            lemma_sum_bounds(self.window());
        }
        self.curr_frame_time = delta;
        if self.time_since_start <= u128::MAX - (delta as u128) {
            self.time_since_start = self.time_since_start + (delta as u128);
        } else {
            self.time_since_start = u128::MAX;
        }
        self.summed_frame_time = self.summed_frame_time + (delta as u128);
        let ghost pre = *self;
        if self.n_frames < BUFFER_SIZE {
            self.n_frames = self.n_frames + 1;
        } else {
            proof {
                lemma_sum_drop_first(self.window());
                lemma_sum_bounds(self.window().skip(1));
                assert(self.frame_time_buffer@[ring_pos(
                    self.idx as int,
                    self.n_frames as int,
                    BUFFER_SIZE as int,
                    0,
                )] == self.window()[0]);
            }
            let evicted = self.frame_time_buffer[self.idx];
            self.summed_frame_time = self.summed_frame_time - (evicted as u128);
        }
        self.frame_time_buffer.set(self.idx, delta);
        self.idx = if self.idx + 1 == BUFFER_SIZE {
            0
        } else {
            self.idx + 1
        };
        proof {
            self.history@ = self.history@.push(delta);
            let n = BUFFER_SIZE as int;
            let len = pre.recorded().len() as int;
            if len < n {
                assert(pre.window() =~= pre.recorded());
                assert(self.window() =~= pre.recorded().push(delta));
                lemma_sum_push(pre.recorded(), delta);
            } else {
                assert(pre.window().skip(1).push(delta) =~= self.window());
                lemma_sum_drop_first(pre.window());
                lemma_sum_push(pre.window().skip(1), delta);
            }
            assert forall|j: int| 0 <= j < self.n_frames implies self.frame_time_buffer@[ring_pos(
                self.idx as int,
                self.n_frames as int,
                n,
                j,
            )] == self.window()[j] by {
                if j + 1 < self.n_frames as int {
                    assert(pre.frame_time_buffer@[ring_pos(
                        pre.idx as int,
                        pre.n_frames as int,
                        n,
                        j + 1 - (self.n_frames - pre.n_frames),
                    )] == pre.window()[j + 1 - (self.n_frames - pre.n_frames)]);
                }
            }
        }
    }

    /// Advances the timer by one frame.  The first call after construction
    /// or after `pause` only anchors a timestamp; each later call records
    /// the measured duration since the previous anchor.
    pub fn next_frame(&mut self)
        requires
            old(self).wf(),
        ensures
            final(self).wf(),
            final(self).anchored(),
            !old(self).anchored() ==> final(self).recorded() == old(self).recorded()
                && final(self).total_nanos() == old(self).total_nanos()
                && final(self).current_nanos() == old(self).current_nanos()
                && final(self).frames_in_window() == old(self).frames_in_window(),
            old(self).anchored() ==> exists|d: u64| Self::records(*old(self), *final(self), d),
    {
        let now = instant_now();
        match self.last_frame {
            None => {
                self.last_frame = Some(now);
            },
            Some(prev) => {
                let nanos = duration_nanos(&duration_between(&prev, &now));
                let delta: u64 = if nanos > MAX_FRAME_NANOS as u128 {
                    MAX_FRAME_NANOS
                } else {
                    nanos as u64
                };
                self.last_frame = Some(now);
                let ghost pre = *self;
                self.record_frame(delta);
                proof {
                    assert(Self::records(*old(self), *self, delta));
                }
            },
        }
    }

    /// Forgets the timestamp anchor, so the next `next_frame` does not
    /// measure a duration spanning the paused interval.  History is kept.
    pub fn pause(&mut self)
        requires
            old(self).wf(),
        ensures
            final(self).wf(),
            !final(self).anchored(),
            final(self).recorded() == old(self).recorded(),
            final(self).total_nanos() == old(self).total_nanos(),
            final(self).current_nanos() == old(self).current_nanos(),
            final(self).frames_in_window() == old(self).frames_in_window(),
    {
        self.last_frame = None;
    }

    /// Total measured time since the first recorded frame, in nanoseconds.
    pub fn time_since_start(&self) -> (r: u128)
        ensures
            r == self.total_nanos(),
    {
        self.time_since_start
    }

    /// Average frame duration over the window, in nanoseconds; zero while no
    /// frame has been recorded.
    pub fn avg_frame_time(&self) -> (r: u128)
        requires
            self.wf(),
        ensures
            r == if self.frames_in_window() == 0 {
                0
            } else {
                sum_nanos(self.window()) / self.frames_in_window()
            },
    {
        if self.n_frames == 0 {
            0
        } else {
            self.summed_frame_time / (self.n_frames as u128)
        }
    }

    /// Duration of the most recently recorded frame, in nanoseconds.
    pub fn curr_frame_time(&self) -> (r: u64)
        ensures
            r == self.current_nanos(),
    {
        self.curr_frame_time
    }
}

impl<const BUFFER_SIZE: usize> Default for PerformanceMetrics<BUFFER_SIZE> {
    /// A fresh timer: unanchored, empty window, zero totals.
    fn default() -> (r: Self)
        ensures
            BUFFER_SIZE >= 1 ==> r.wf(),
            r.recorded() == Seq::<u64>::empty(),
            !r.anchored(),
            r.total_nanos() == 0,
            r.current_nanos() == 0,
            r.frames_in_window() == 0,
    {
        let mut buffer: Vec<u64> = Vec::new();
        let mut i: usize = 0;
        while i < BUFFER_SIZE
            invariant
                i <= BUFFER_SIZE,
                buffer@.len() == i,
            decreases BUFFER_SIZE - i,
        {
            buffer.push(0);
            i = i + 1;
        }
        let r = PerformanceMetrics {
            last_frame: None,
            curr_frame_time: 0,
            time_since_start: 0,
            frame_time_buffer: buffer,
            idx: 0,
            n_frames: 0,
            summed_frame_time: 0,
            history: Ghost(Seq::empty()),
        };
        proof {
            assert(r.window() =~= Seq::<u64>::empty());
        }
        r
    }
}

} // verus!
