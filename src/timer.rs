use std::time::{Duration, Instant};
use vstd::prelude::*;

verus! {

/// std's `Instant`, a reading of the monotonic clock, declared opaque: the
/// timer keeps the previous reading and never reads it itself.
#[verifier::external_type_specification]
#[verifier::external_body]
pub struct ExInstant(Instant);

/// Relies on `Instant::now`: the current time of the monotonic clock.
#[verifier::external_body]
fn now() -> (r: Instant) {
    Instant::now()
}

/// Relies on `Instant::saturating_duration_since`: the time from `earlier` to
/// `later`, zero where `earlier` is the later one (it does not panic).
#[verifier::external_body]
fn elapsed(later: &Instant, earlier: &Instant) -> (r: Duration) {
    later.saturating_duration_since(*earlier)
}

/// Relies on `Duration::as_nanos`: a duration as a whole number of nanoseconds.
#[verifier::external_body]
fn duration_nanos(d: &Duration) -> (r: u128) {
    d.as_nanos()
}

/// Relies on `Duration::from_nanos`: a duration of `n` nanoseconds.
#[verifier::external_body]
fn duration_from_nanos(n: u64) -> (r: Duration) {
    Duration::from_nanos(n)
}

/// The sum of a sequence of frame times.
pub open spec fn total(s: Seq<u64>) -> int
    decreases s.len(),
{
    if s.len() == 0 {
        0
    } else {
        total(s.drop_last()) + s.last()
    }
}

/// The mean frame time of a non-empty window, rounded down and never below
/// one nanosecond.
pub open spec fn mean_frame_time(s: Seq<u64>) -> int {
    let m = total(s) / (s.len() as int);
    if m < 1 {
        1
    } else {
        m
    }
}

/// Measures frame times and reports their mean once per window of
/// `num_frames` frames.
pub struct Timer {
    num_frames: usize,
    timestamps: Vec<u64>,
    prev_time: Instant,
}

impl Timer {
    /// The number of frames that each reported mean covers.
    pub closed spec fn window(&self) -> nat {
        self.num_frames as nat
    }

    /// The frame times, in nanoseconds, gathered since the last report.
    pub closed spec fn frames(&self) -> Seq<u64> {
        self.timestamps@
    }

    pub closed spec fn wf(&self) -> bool {
        &&& 0 < self.num_frames
        &&& self.timestamps@.len() <= self.num_frames
    }

    /// A timer whose clock starts now.
    pub fn new(num_frames: usize) -> (r: Timer)
        requires
            0 < num_frames,
        ensures
            r.wf(),
            r.window() == num_frames,
            r.frames() == Seq::<u64>::empty(),
    {
        Timer { num_frames, timestamps: Vec::with_capacity(num_frames), prev_time: now() }
    }

    /// Records one frame of `nanos` nanoseconds. Once the window has been
    /// exceeded, returns the mean of its first `window()` frames and starts
    /// a new window; the frame that exceeded it is dropped with the rest.
    pub fn record_frame(&mut self, nanos: u64) -> (r: Option<u64>)
        requires
            old(self).wf(),
        ensures
            final(self).wf(),
            final(self).window() == old(self).window(),
            ({
                let frames = old(self).frames().push(nanos);
                if frames.len() > old(self).window() {
                    &&& r == Some(mean_frame_time(frames.take(old(self).window() as int)) as u64)
                    &&& final(self).frames() == Seq::<u64>::empty()
                } else {
                    &&& r.is_none()
                    &&& final(self).frames() == frames
                }
            }),
    {
        self.timestamps.push(nanos);
        if self.timestamps.len() > self.num_frames {
            let n = self.num_frames;
            let ghost s = self.timestamps@;
            let mut sum: u128 = 0;
            let mut i: usize = 0;
            while i < n
                invariant
                    i <= n,
                    n < s.len(),
                    s == self.timestamps@,
                    sum == total(s.take(i as int)),
                    sum <= i * (u64::MAX as int),
                decreases n - i,
            {
                proof {
                    assert(s.take(i as int + 1).drop_last() =~= s.take(i as int));
                    assert((i + 1) * (u64::MAX as int) == i * (u64::MAX as int) + u64::MAX)
                        by (nonlinear_arith);
                    assert(i * (u64::MAX as int) <= usize::MAX * (u64::MAX as int))
                        by (nonlinear_arith)
                        requires
                            i <= usize::MAX,
                    ;
                }
                sum = sum + self.timestamps[i] as u128;
                i = i + 1;
            }
            let mean = sum / (n as u128);
            proof {
                let m = u64::MAX as int;
                assert(sum as int / n as int <= m) by (nonlinear_arith)
                    requires
                        sum as int <= n as int * m,
                        n > 0,
                        m > 0,
                ;
            }
            self.timestamps.clear();
            if mean < 1 {
                Some(1)
            } else {
                Some(mean as u64)
            }
        } else {
            None
        }
    }

    /// Ends a frame: measures the time since the previous call (or since
    /// the timer was made) and records it as `record_frame` does, returning
    /// the window's mean frame time once the window has been exceeded.
    pub fn tick(&mut self) -> (r: Option<Duration>)
        requires
            old(self).wf(),
        ensures
            final(self).wf(),
            final(self).window() == old(self).window(),
            r.is_some() == (old(self).frames().len() == old(self).window()),
            r.is_some() ==> final(self).frames() == Seq::<u64>::empty(),
            r.is_none() ==> final(self).frames().len() == old(self).frames().len() + 1,
    {
        let now = now();
        let nanos = duration_nanos(&elapsed(&now, &self.prev_time));
        let frame: u64 = if nanos > u64::MAX as u128 {
            u64::MAX
        } else {
            nanos as u64
        };
        let res = match self.record_frame(frame) {
            Some(mean) => Some(duration_from_nanos(mean)),
            None => None,
        };
        self.prev_time = now;
        res
    }
}

} // verus!
