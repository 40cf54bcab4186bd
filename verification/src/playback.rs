//! The playback engine: a state machine that owns a cursor into the frame
//! buffer, advances it on a wall-clock cadence unless paused, and reacts to
//! the input events the host forwards.
//!
//! Conventions settled here once: `speed` is a percentage in 5..=100 in
//! steps of 5, scaling the wait between forward steps linearly (higher
//! percent means a longer wait, hence slower playback); speeding up lowers
//! it to a floor of 5 and slowing down raises it to a cap of 100.

use vstd::prelude::*;
use crate::board::Board;
use crate::frames::FrameBuffer;

verus! {

/// Which way auto-play moves the cursor.
#[derive(Clone, Copy, Debug, PartialEq, Eq, Structural)]
pub enum Direction {
    Forward,
    Backward,
}

/// Nanoseconds of wait per speed percent point.
pub const NANOS_PER_POINT: u64 = 5_000_000;

/// The wait between forward steps, scaling linearly with `speed`.
pub open spec fn threshold_of(speed: u32) -> int {
    speed * 5_000_000
}

/// Playback session state. Touched only by the consumer context, so it
/// needs no synchronization; timestamps are nanosecond readings of a
/// monotone clock.
#[derive(Clone, Copy, Debug, PartialEq, Eq, Structural)]
pub struct PlaybackEngine {
    /// Index into the frame buffer currently displayed.
    pub cursor: usize,
    /// Whether auto-play is suspended.
    pub paused: bool,
    /// Playback speed percent, 5..=100 in steps of 5.
    pub speed: u32,
    /// Which way auto-play moves.
    pub direction: Direction,
    /// Clock reading of the last forward auto-step.
    pub last_advance: u64,
}

/// What one clock tick does to the state: nothing while paused or before
/// the threshold has elapsed; one backward step (never past frame 0,
/// and without resetting the cadence clock, so backward stepping is not
/// cadence-limited once triggered); or one forward step, never past the
/// newest available frame, resetting the cadence clock.
pub open spec fn tick_next(s: PlaybackEngine, now: u64, frame_count: int) -> PlaybackEngine {
    if s.paused {
        s
    } else if now - s.last_advance < threshold_of(s.speed) {
        s
    } else if s.direction is Backward {
        if s.cursor > 0 {
            PlaybackEngine { cursor: (s.cursor - 1) as usize, ..s }
        } else {
            s
        }
    } else {
        if s.cursor + 1 < frame_count {
            PlaybackEngine { cursor: (s.cursor + 1) as usize, last_advance: now, ..s }
        } else {
            s
        }
    }
}

impl PlaybackEngine {
    /// The invariant of a live session: the speed stays on the 5..=100
    /// five-point scale.
    pub open spec fn wf(self) -> bool {
        5 <= self.speed <= 100 && self.speed % 5 == 0
    }

    /// Initial state: live forward playback from frame 0 at 25 percent.
    pub fn new(now: u64) -> (r: PlaybackEngine)
        ensures
            r == (PlaybackEngine {
                cursor: 0usize,
                paused: false,
                speed: 25u32,
                direction: Direction::Forward,
                last_advance: now,
            }),
            r.wf(),
    {
        PlaybackEngine {
            cursor: 0,
            paused: false,
            speed: 25,
            direction: Direction::Forward,
            last_advance: now,
        }
    }

    /// One tick of the render loop at clock reading `now` with
    /// `frame_count` frames decoded so far.
    pub fn on_tick(&mut self, now: u64, frame_count: usize)
        requires
            old(self).last_advance <= now,
        ensures
            *final (self) == tick_next(*old(self), now, frame_count as int),
    {
        if self.paused {
            return ;
        }
        let elapsed: u64 = now - self.last_advance;
        if elapsed < self.speed as u64 * NANOS_PER_POINT {
            return ;
        }
        if let Direction::Backward = self.direction {
            if self.cursor > 0 {
                self.cursor = self.cursor - 1;
            }
        } else {
            if frame_count > 0 && self.cursor < frame_count - 1 {
                self.cursor = self.cursor + 1;
                self.last_advance = now;
            }
        }
    }

    /// Flip between paused and live playback.
    pub fn toggle_pause(&mut self)
        ensures
            *final (self) == (PlaybackEngine { paused: !old(self).paused, ..*old(self) }),
    {
        self.paused = !self.paused;
    }

    /// Pause and move one frame back; at frame 0 the cursor stays put.
    pub fn step_back(&mut self)
        ensures
            *final (self) == (PlaybackEngine {
                paused: true,
                cursor: if old(self).cursor > 0 {
                    (old(self).cursor - 1) as usize
                } else {
                    0usize
                },
                ..*old(self)
            }),
    {
        self.paused = true;
        if self.cursor > 0 {
            self.cursor = self.cursor - 1;
        }
    }

    /// Pause and move one frame forward, never past the newest of the
    /// `frame_count` frames available.
    pub fn step_forward(&mut self, frame_count: usize)
        ensures
            *final (self) == (PlaybackEngine {
                paused: true,
                cursor: if old(self).cursor + 1 < frame_count {
                    (old(self).cursor + 1) as usize
                } else {
                    old(self).cursor
                },
                ..*old(self)
            }),
            old(self).cursor < frame_count ==> final (self).cursor < frame_count,
    {
        self.paused = true;
        if frame_count > 0 && self.cursor < frame_count - 1 {
            self.cursor = self.cursor + 1;
        }
    }

    /// Pause and rewind to frame 0.
    pub fn reset(&mut self)
        ensures
            *final (self) == (PlaybackEngine { paused: true, cursor: 0usize, ..*old(self) }),
    {
        self.paused = true;
        self.cursor = 0;
    }

    /// Speed playback up: five points less wait, floor 5.
    pub fn speed_up(&mut self)
        requires
            old(self).wf(),
        ensures
            *final (self) == (PlaybackEngine {
                speed: if old(self).speed >= 10 {
                    (old(self).speed - 5) as u32
                } else {
                    old(self).speed
                },
                ..*old(self)
            }),
            final (self).wf(),
    {
        if self.speed >= 10 {
            self.speed = self.speed - 5;
        }
    }

    /// Slow playback down: five points more wait, cap 100.
    pub fn speed_down(&mut self)
        requires
            old(self).wf(),
        ensures
            *final (self) == (PlaybackEngine {
                speed: if old(self).speed <= 95 {
                    (old(self).speed + 5) as u32
                } else {
                    old(self).speed
                },
                ..*old(self)
            }),
            final (self).wf(),
    {
        if self.speed <= 95 {
            self.speed = self.speed + 5;
        }
    }

    /// Set the auto-play direction; the cursor itself does not move.
    pub fn set_direction(&mut self, d: Direction)
        ensures
            *final (self) == (PlaybackEngine { direction: d, ..*old(self) }),
    {
        self.direction = d;
    }

    /// The board the cursor points at; valid as soon as at least one frame
    /// has been appended and the cursor is bounded by the buffer length.
    pub fn current_frame<'a>(&self, fb: &'a FrameBuffer) -> (b: &'a Board)
        requires
            self.cursor < fb@.len(),
        ensures
            b == fb@[self.cursor as int],
    {
        fb.get(self.cursor)
    }
}

/// Forward auto-play is cadence-limited: a tick that advances the cursor
/// advances it by exactly one and resets the clock, so every further tick
/// strictly before one threshold interval has elapsed leaves the state
/// unchanged.
pub proof fn lemma_forward_cadence(
    s: PlaybackEngine,
    now: u64,
    now2: u64,
    frame_count: int,
)
    requires
        0 <= frame_count <= usize::MAX,
        s.direction is Forward,
        tick_next(s, now, frame_count).cursor != s.cursor,
        now <= now2,
        now2 - now < threshold_of(s.speed),
    ensures
        tick_next(s, now, frame_count).cursor == s.cursor + 1,
        tick_next(tick_next(s, now, frame_count), now2, frame_count) == tick_next(
            s,
            now,
            frame_count,
        ),
{
}

} // verus!
