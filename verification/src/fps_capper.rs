use vstd::prelude::*;

verus! {

/// Nanoseconds in one second.
pub const NANOS_PER_SEC: u64 = 1_000_000_000;

/// Paces a render loop to a target frame rate.
///
/// A positive `target_fps` caps the loop at that rate. Zero disables pacing
/// entirely (a tick does nothing, not even bookkeeping). A negative value
/// means "unlimited": a tick never sleeps, though it still refreshes the
/// recorded frame time.
///
/// Timestamps are nanoseconds on a monotonic clock whose origin is the moment
/// the limiter was created, so the initial recorded frame time is zero. The
/// limiter itself never sleeps: `sleep_duration` says how long the caller
/// must sleep, and `record_tick` records when the frame boundary actually
/// happened.
pub struct FpsLimiter {
    pub frame_duration: u64,
    pub last_frame_time: u64,
    pub target_fps: i32,
}

impl FpsLimiter {
    /// The length every frame should occupy, in nanoseconds; zero when the
    /// limiter does not cap the rate.
    pub open spec fn spec_frame_duration(self) -> u64 {
        self.frame_duration
    }

    /// The recorded time of the previous frame boundary, in nanoseconds.
    pub open spec fn spec_last_frame_time(self) -> u64 {
        self.last_frame_time
    }

    /// The configured rate: positive caps, zero disables, negative is
    /// "unlimited".
    pub open spec fn spec_target_fps(self) -> i32 {
        self.target_fps
    }

    /// True exactly when the limiter makes the loop sleep at all.
    pub open spec fn limits(self) -> bool {
        self.target_fps > 0
    }

    /// Well-formed limiters, as `new` builds them: an uncapped configuration
    /// carries no frame duration, so it can never ask for a sleep.
    pub open spec fn wf(self) -> bool {
        self.target_fps <= 0 ==> self.frame_duration == 0
    }

    /// How long a tick at time `now` must sleep: the remainder of the current
    /// frame's duration, and nothing when the frame is already over or the
    /// limiter is configured not to cap.
    pub open spec fn spec_sleep_duration(self, now: u64) -> u64 {
        if self.target_fps != 0 && now - self.last_frame_time < self.frame_duration {
            (self.frame_duration - (now - self.last_frame_time)) as u64
        } else {
            0
        }
    }

    pub fn new(target_fps: i32) -> (r: FpsLimiter)
        ensures
            r.wf(),
            r.spec_target_fps() == target_fps,
            r.spec_last_frame_time() == 0,
            target_fps > 0 ==> r.spec_frame_duration() == NANOS_PER_SEC as int / target_fps as int,
            target_fps <= 0 ==> r.spec_frame_duration() == 0,
    {
        if target_fps > 0 {
            FpsLimiter {
                frame_duration: NANOS_PER_SEC / (target_fps as u64),
                last_frame_time: 0,
                target_fps,
            }
        } else {
            FpsLimiter { frame_duration: 0, last_frame_time: 0, target_fps }
        }
    }

    /// How long the render loop must sleep before the next frame may begin.
    ///
    /// A limiter configured "unlimited" or disabled never asks for a sleep.
    pub fn sleep_duration(&self, now: u64) -> (r: u64)
        requires
            self.wf(),
            now >= self.spec_last_frame_time(),
        ensures
            r == self.spec_sleep_duration(now),
            self.spec_target_fps() <= 0 ==> r == 0,
            self.limits() ==> now + r >= self.spec_last_frame_time() + self.spec_frame_duration(),
    {
        if self.target_fps != 0 {
            let elapsed = now - self.last_frame_time;
            if elapsed < self.frame_duration {
                self.frame_duration - elapsed
            } else {
                0
            }
        } else {
            0
        }
    }

    /// Record that a frame boundary happened at `now`; the next sleep is
    /// measured from here. A disabled limiter keeps no bookkeeping, matching
    /// its tick being a complete no-op.
    pub fn record_tick(&mut self, now: u64)
        ensures
            old(self).spec_target_fps() != 0 ==> *final(self) == (FpsLimiter {
                last_frame_time: now,
                ..*old(self)
            }),
            old(self).spec_target_fps() == 0 ==> *final(self) == *old(self),
    {
        if self.target_fps != 0 {
            self.last_frame_time = now;
        }
    }

    /// Law: while the limiter caps the rate, consecutive frames are spaced by
    /// at least one frame duration. Sleeping the amount `sleep_duration`
    /// returns puts the wake-up time at least `spec_frame_duration()`
    /// nanoseconds after the previously recorded frame boundary.
    pub proof fn lemma_tick_spacing(self, now: u64)
        requires
            self.limits(),
            now >= self.spec_last_frame_time(),
        ensures
            now + self.spec_sleep_duration(now) >= self.spec_last_frame_time()
                + self.spec_frame_duration(),
    {
    }
}

} // verus!
