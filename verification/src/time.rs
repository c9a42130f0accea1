//! Frame timing: the length of the last frame, the time since start, and the
//! number of frames. Durations are whole microseconds.

use vstd::prelude::*;

verus! {

/// Microseconds in one second.
pub const MICROS_PER_SECOND: u64 = 1_000_000;

/// The frame length assumed for the very first frame, before any two
/// timestamps can be compared: 16 milliseconds, about one sixtieth of a
/// second.
pub const FIRST_FRAME_MICROS: u64 = 16_000;

/// Timing information carried from frame to frame.
#[derive(Clone, Copy, Debug, PartialEq, Eq, Structural)]
pub struct Time {
    delta_micros: u64,
    elapsed_micros: u64,
    frame_count: u32,
}

/// The length of a frame drawn at `now` when the previous one was drawn at
/// `last`. Without a previous frame it is [`FIRST_FRAME_MICROS`]; a clock
/// that stepped backwards gives zero.
pub open spec fn frame_delta_spec(last: Option<u64>, now: u64) -> u64 {
    match last {
        None => FIRST_FRAME_MICROS,
        Some(previous) => if now >= previous {
            (now - previous) as u64
        } else {
            0
        },
    }
}

/// Frames per second at a frame length of `delta_micros`, rounded down;
/// zero when no time has passed.
pub open spec fn fps_spec(delta_micros: u64) -> u64 {
    if delta_micros > 0 {
        MICROS_PER_SECOND / delta_micros
    } else {
        0
    }
}

/// `a + b`, stopping at the largest `u64`.
pub open spec fn saturating_sum(a: u64, b: u64) -> u64 {
    if a + b > u64::MAX {
        u64::MAX
    } else {
        (a + b) as u64
    }
}

/// `n + 1`, stopping at the largest `u32`.
pub open spec fn saturating_next(n: u32) -> u32 {
    if n == u32::MAX {
        n
    } else {
        (n + 1) as u32
    }
}

/// Turns two successive frame timestamps into the frame's length.
pub fn frame_delta(last: Option<u64>, now: u64) -> (delta: u64)
    ensures
        delta == frame_delta_spec(last, now),
{
    match last {
        None => FIRST_FRAME_MICROS,
        Some(previous) => if now >= previous {
            now - previous
        } else {
            0
        },
    }
}

impl Time {
    pub closed spec fn spec_delta_time(&self) -> u64 {
        self.delta_micros
    }

    pub closed spec fn spec_elapsed_time(&self) -> u64 {
        self.elapsed_micros
    }

    pub closed spec fn spec_frame_count(&self) -> u32 {
        self.frame_count
    }

    /// The timing of an engine that has drawn no frame yet.
    pub closed spec fn new_value() -> Time {
        Time { delta_micros: 0, elapsed_micros: 0, frame_count: 0 }
    }

    /// The timing after one more frame of length `delta_micros`.
    pub closed spec fn updated(self, delta_micros: u64) -> Time {
        Time {
            delta_micros,
            elapsed_micros: saturating_sum(self.elapsed_micros, delta_micros),
            frame_count: saturating_next(self.frame_count),
        }
    }

    pub fn new() -> (time: Self)
        ensures
            time == Time::new_value(),
            time.spec_delta_time() == 0,
            time.spec_elapsed_time() == 0,
            time.spec_frame_count() == 0,
    {
        Time { delta_micros: 0, elapsed_micros: 0, frame_count: 0 }
    }

    /// Accounts for one more frame of length `delta_micros`. The elapsed
    /// time and the frame count stop at the largest value of their types.
    pub fn update(&mut self, delta_micros: u64)
        ensures
            *final(self) == old(self).updated(delta_micros),
            final(self).spec_delta_time() == delta_micros,
            final(self).spec_elapsed_time() == saturating_sum(
                old(self).spec_elapsed_time(),
                delta_micros,
            ),
            final(self).spec_frame_count() == saturating_next(old(self).spec_frame_count()),
    {
        self.delta_micros = delta_micros;
        self.elapsed_micros = if self.elapsed_micros > u64::MAX - delta_micros {
            u64::MAX
        } else {
            self.elapsed_micros + delta_micros
        };
        self.frame_count = if self.frame_count == u32::MAX {
            u32::MAX
        } else {
            self.frame_count + 1
        };
    }

    /// Microseconds between the last two frames.
    #[verifier::when_used_as_spec(spec_delta_time)]
    pub fn delta_time(&self) -> (delta: u64)
        ensures
            delta == self.spec_delta_time(),
    {
        self.delta_micros
    }

    /// Microseconds accounted for since the start.
    #[verifier::when_used_as_spec(spec_elapsed_time)]
    pub fn elapsed_time(&self) -> (elapsed: u64)
        ensures
            elapsed == self.spec_elapsed_time(),
    {
        self.elapsed_micros
    }

    /// Frames accounted for since the start.
    #[verifier::when_used_as_spec(spec_frame_count)]
    pub fn frame_count(&self) -> (count: u32)
        ensures
            count == self.spec_frame_count(),
    {
        self.frame_count
    }

    /// Current frames per second, rounded down.
    pub fn fps(&self) -> (rate: u64)
        ensures
            rate == fps_spec(self.delta_time()),
    {
        if self.delta_micros > 0 {
            MICROS_PER_SECOND / self.delta_micros
        } else {
            0
        }
    }
}

/// What the accessors read off a new timing and off an updated one.
pub proof fn lemma_time_values(time: Time, delta_micros: u64)
    ensures
        Time::new_value().delta_time() == 0,
        Time::new_value().elapsed_time() == 0,
        Time::new_value().frame_count() == 0,
        time.updated(delta_micros).delta_time() == delta_micros,
        time.updated(delta_micros).elapsed_time() == saturating_sum(
            time.elapsed_time(),
            delta_micros,
        ),
        time.updated(delta_micros).frame_count() == saturating_next(time.frame_count()),
{
}

impl Default for Time {
    fn default() -> (time: Self)
        ensures
            time.delta_time() == 0,
            time.elapsed_time() == 0,
            time.frame_count() == 0,
    {
        Time::new()
    }
}

} // verus!
