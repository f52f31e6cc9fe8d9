use vstd::prelude::*;

verus! {

/// How long a measurement window lasts before the frame rate is recomputed.
pub const FPS_WINDOW_NS: u64 = 1_000_000_000;

/// How long the minimum-rate cache is held before it is shown.
pub const MIN_COMMIT_WINDOW_NS: u64 = 3_000_000_000;

/// Live frame-rate statistics for a render loop.
///
/// `record_frame` is called once per rendered frame with the current
/// monotonic time in nanoseconds. Rates are in milli-frames-per-second.
/// Two cadences run independently: every second the current rate is
/// recomputed, the running maximum raised and a minimum candidate lowered;
/// every three seconds the candidate is committed to `min_fps_display` and
/// reset to the current rate as the new baseline.
pub struct FrameStats {
    /// Frames seen since the current one-second window opened.
    pub frame_count: u64,
    /// When the current one-second window opened, in nanoseconds.
    pub window_start: u64,
    /// The rate measured over the last completed window, in milli-fps.
    pub current_fps: u64,
    /// Running maximum of every measured rate, in milli-fps.
    pub max_fps: u64,
    /// The minimum shown on screen, refreshed on the slower cadence.
    pub min_fps_display: u64,
    /// The lowest rate seen since the last commit, in milli-fps.
    pub pending_min_candidate: u64,
    /// When the current three-second commit window opened, in nanoseconds.
    pub min_window_start: u64,
}

/// The measured rate in milli-frames-per-second: frames divided by elapsed
/// time, scaled to thousandths.
pub open spec fn spec_fps_milli(frames: nat, elapsed_ns: nat) -> nat
    recommends
        elapsed_ns > 0,
{
    frames * 1_000_000_000_000 / elapsed_ns
}

/// Caps a mathematical rate to what a machine word holds.
pub open spec fn spec_sat64(n: nat) -> u64 {
    if n > u64::MAX {
        u64::MAX
    } else {
        n as u64
    }
}

/// The statistics after one more frame at time `now`: the frame is counted;
/// if the one-second window has elapsed the rate is recomputed, the maximum
/// raised and the minimum candidate lowered, and the window restarts at
/// `now`; if the three-second window has elapsed the candidate is committed
/// to the displayed minimum and reset to the current rate.
pub open spec fn spec_after_frame(s: FrameStats, now: u64) -> FrameStats
    recommends
        s.frame_count < u64::MAX,
        now >= s.window_start,
        now >= s.min_window_start,
{
    let counted = FrameStats { frame_count: (s.frame_count + 1) as u64, ..s };
    let measured = if now - counted.window_start >= FPS_WINDOW_NS {
        let fps = spec_sat64(
            spec_fps_milli(counted.frame_count as nat, (now - counted.window_start) as nat),
        );
        FrameStats {
            frame_count: 0,
            window_start: now,
            current_fps: fps,
            max_fps: if fps > counted.max_fps {
                fps
            } else {
                counted.max_fps
            },
            pending_min_candidate: if fps < counted.pending_min_candidate {
                fps
            } else {
                counted.pending_min_candidate
            },
            ..counted
        }
    } else {
        counted
    };
    if now - measured.min_window_start >= MIN_COMMIT_WINDOW_NS {
        FrameStats {
            min_fps_display: measured.pending_min_candidate,
            pending_min_candidate: measured.current_fps,
            min_window_start: now,
            ..measured
        }
    } else {
        measured
    }
}

impl FrameStats {
    /// Fresh statistics whose windows open at time `now`.
    pub fn new(now: u64) -> (r: FrameStats)
        ensures
            r == (FrameStats {
                frame_count: 0,
                window_start: now,
                current_fps: 0,
                max_fps: 0,
                min_fps_display: 0,
                pending_min_candidate: 0,
                min_window_start: now,
            }),
    {
        FrameStats {
            frame_count: 0,
            window_start: now,
            current_fps: 0,
            max_fps: 0,
            min_fps_display: 0,
            pending_min_candidate: 0,
            min_window_start: now,
        }
    }

    /// Counts one rendered frame at time `now` and rolls the measurement
    /// windows as `spec_after_frame` describes. The running maximum never
    /// goes down.
    pub fn record_frame(&mut self, now: u64)
        requires
            old(self).frame_count < u64::MAX,
            now >= old(self).window_start,
            now >= old(self).min_window_start,
        ensures
            *final(self) == spec_after_frame(*old(self), now),
            final(self).max_fps >= old(self).max_fps,
            final(self).window_start <= now,
            final(self).min_window_start <= now,
    {
        self.frame_count = self.frame_count + 1;
        let elapsed = now - self.window_start;
        if elapsed >= FPS_WINDOW_NS {
            let scaled: u128 = (self.frame_count as u128) * 1_000_000_000_000u128;
            let quotient: u128 = scaled / (elapsed as u128);
            let fps: u64 = if quotient > u64::MAX as u128 {
                u64::MAX
            } else {
                quotient as u64
            };
            self.frame_count = 0;
            self.window_start = now;
            self.current_fps = fps;
            if fps > self.max_fps {
                self.max_fps = fps;
            }
            if fps < self.pending_min_candidate {
                self.pending_min_candidate = fps;
            }
        }
        if now - self.min_window_start >= MIN_COMMIT_WINDOW_NS {
            self.min_fps_display = self.pending_min_candidate;
            self.pending_min_candidate = self.current_fps;
            self.min_window_start = now;
        }
    }
}

} // verus!
