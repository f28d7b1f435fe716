//! Frame-index state of the trajectory player.
//!
//! The player walks through the poses of a trajectory one frame at a time.
//! How long a frame lasts is measured in seconds by the caller, which owns
//! the clock; this module owns every decision about which frame is shown
//! and whether playback goes on.
use vstd::prelude::*;

verus! {

/// The last frame a player over `total` frames can show (0 when there is none).
pub open spec fn last_frame(total: nat) -> nat {
    if total == 0 {
        0
    } else {
        (total - 1) as nat
    }
}

/// Which frame is shown, how many there are, and whether playback runs.
#[derive(Clone, Copy, Debug, PartialEq, Eq, Structural)]
pub struct PlaybackState {
    pub current_frame: usize,
    pub total_frames: usize,
    pub is_playing: bool,
}

/// What a tick of the clock has to measure before the frame index can move.
#[derive(Clone, Copy, Debug, PartialEq, Eq, Structural)]
pub enum TickPhase {
    /// Playback is paused or there are no frames: the tick does nothing.
    Paused,
    /// There is no next timestamp: the tick ends playback.
    EndOfTrack,
    /// The tick moves from frame `from` to frame `to` once the time spent
    /// since `from` covers the gap between their timestamps.
    Frame { from: usize, to: usize },
}

impl PlaybackState {
    /// The current frame lies within the frames that exist.
    pub open spec fn in_range(self) -> bool {
        self.current_frame <= last_frame(self.total_frames as nat)
    }

    /// The state after `seek(frame)`.
    pub open spec fn seek_result(self, frame: usize) -> PlaybackState {
        PlaybackState {
            current_frame: if frame <= last_frame(self.total_frames as nat) {
                frame
            } else {
                last_frame(self.total_frames as nat) as usize
            },
            ..self
        }
    }

    /// The state after `toggle_play()`.
    pub open spec fn toggle_result(self) -> PlaybackState {
        PlaybackState {
            current_frame: if self.current_frame + 1 >= self.total_frames {
                0
            } else {
                self.current_frame
            },
            is_playing: !self.is_playing,
            ..self
        }
    }

    /// What a tick measures, given the number of timestamps of the trajectory.
    pub open spec fn phase(self, n_timestamps: nat) -> TickPhase {
        if !self.is_playing || self.total_frames == 0 {
            TickPhase::Paused
        } else if self.current_frame + 1 < n_timestamps {
            TickPhase::Frame {
                from: self.current_frame,
                to: (self.current_frame + 1) as usize,
            }
        } else {
            TickPhase::EndOfTrack
        }
    }

    /// The state after a tick, given whether the measured frame time had elapsed.
    pub open spec fn tick_result(self, n_timestamps: nat, frame_elapsed: bool) -> PlaybackState {
        match self.phase(n_timestamps) {
            TickPhase::Paused => self,
            TickPhase::EndOfTrack => PlaybackState { is_playing: false, ..self },
            TickPhase::Frame { from, to } => {
                if !frame_elapsed {
                    self
                } else if to + 1 >= self.total_frames {
                    PlaybackState {
                        current_frame: last_frame(self.total_frames as nat) as usize,
                        is_playing: false,
                        ..self
                    }
                } else {
                    PlaybackState { current_frame: to, ..self }
                }
            },
        }
    }

    /// A paused player at the first of `total_frames` frames.
    pub fn new(total_frames: usize) -> (r: Self)
        ensures
            r == (PlaybackState { current_frame: 0, total_frames, is_playing: false }),
            r.in_range(),
    {
        PlaybackState { current_frame: 0, total_frames, is_playing: false }
    }

    /// The last frame that can be shown: the upper end of the timeline.
    pub fn last_frame(&self) -> (r: usize)
        ensures
            r == last_frame(self.total_frames as nat),
            self.total_frames == 0 ==> r == 0,
            self.total_frames > 0 ==> r == self.total_frames - 1,
    {
        self.total_frames.saturating_sub(1)
    }

    /// Jumps to `frame`, clamped to the last frame.
    pub fn seek(&mut self, frame: usize)
        ensures
            *final(self) == old(self).seek_result(frame),
            final(self).in_range(),
            final(self).total_frames == old(self).total_frames,
            final(self).is_playing == old(self).is_playing,
            old(self).total_frames > 0 && frame < old(self).total_frames ==> final(self).current_frame
                == frame,
            old(self).total_frames > 0 && frame >= old(self).total_frames ==> final(self).current_frame == old(self).total_frames - 1,
            old(self).total_frames == 0 ==> final(self).current_frame == 0,
    {
        let last: usize = self.last_frame();
        self.current_frame = if frame <= last { frame } else { last };
    }

    /// Starts or pauses playback; starting from the last frame rewinds to the first.
    pub fn toggle_play(&mut self)
        requires
            old(self).current_frame < usize::MAX,
        ensures
            *final(self) == old(self).toggle_result(),
            final(self).is_playing == !old(self).is_playing,
            final(self).total_frames == old(self).total_frames,
            old(self).current_frame + 1 >= old(self).total_frames ==> final(self).current_frame == 0,
            old(self).current_frame + 1 < old(self).total_frames ==> final(self).current_frame
                == old(self).current_frame,
    {
        if self.current_frame + 1 >= self.total_frames {
            self.current_frame = 0;
        }
        self.is_playing = !self.is_playing;
    }

    /// What the next tick has to measure, for a trajectory of `n_timestamps` timestamps.
    pub fn tick_phase(&self, n_timestamps: usize) -> (r: TickPhase)
        requires
            self.is_playing && self.total_frames > 0 ==> self.current_frame < usize::MAX,
        ensures
            r == self.phase(n_timestamps as nat),
            !self.is_playing || self.total_frames == 0 ==> r == TickPhase::Paused,
            self.is_playing && self.total_frames > 0 && self.current_frame + 1 < n_timestamps ==> r
                == (TickPhase::Frame { from: self.current_frame, to: (self.current_frame + 1) as usize }),
            self.is_playing && self.total_frames > 0 && self.current_frame + 1 >= n_timestamps ==> r
                == TickPhase::EndOfTrack,
    {
        if !self.is_playing || self.total_frames == 0 {
            TickPhase::Paused
        } else if self.current_frame + 1 < n_timestamps {
            TickPhase::Frame { from: self.current_frame, to: self.current_frame + 1 }
        } else {
            TickPhase::EndOfTrack
        }
    }

    /// Completes a tick: `frame_elapsed` tells whether the time counted since the
    /// current frame covers the gap to the next timestamp (see `tick_phase`).
    pub fn finish_tick(&mut self, n_timestamps: usize, frame_elapsed: bool)
        requires
            old(self).is_playing && old(self).total_frames > 0 ==> old(self).current_frame
                < usize::MAX,
        ensures
            *final(self) == old(self).tick_result(n_timestamps as nat, frame_elapsed),
            final(self).total_frames == old(self).total_frames,
            !old(self).is_playing || old(self).total_frames == 0 ==> *final(self) == *old(self),
            old(self).is_playing && old(self).total_frames > 0 && old(self).current_frame + 1
                >= n_timestamps ==> !final(self).is_playing && final(self).current_frame == old(self).current_frame,
            old(self).is_playing && old(self).total_frames > 0 && old(self).current_frame + 1
                < n_timestamps && !frame_elapsed ==> *final(self) == *old(self),
            old(self).is_playing && old(self).total_frames > 0 && old(self).current_frame + 1
                < n_timestamps && frame_elapsed && old(self).current_frame + 2 < old(self).total_frames ==> final(self).current_frame == old(self).current_frame + 1
                && final(self).is_playing,
            old(self).is_playing && old(self).total_frames > 0 && old(self).current_frame + 1
                < n_timestamps && frame_elapsed && old(self).current_frame + 2 >= old(self).total_frames ==> final(self).current_frame == old(self).total_frames - 1
                && !final(self).is_playing,
    {
        match self.tick_phase(n_timestamps) {
            TickPhase::Paused => {},
            TickPhase::EndOfTrack => {
                self.is_playing = false;
            },
            TickPhase::Frame { from: _, to } => {
                if frame_elapsed {
                    if to + 1 >= self.total_frames {
                        self.current_frame = self.total_frames - 1;
                        self.is_playing = false;
                    } else {
                        self.current_frame = to;
                    }
                }
            },
        }
    }
}

/// Every operation of the player keeps the current frame within the frames
/// that exist: seeking clamps, toggling rewinds or stays, and a tick stops at
/// the last frame.
pub proof fn lemma_frame_stays_in_range(s: PlaybackState, frame: usize, n_timestamps: nat, frame_elapsed: bool)
    requires
        s.in_range(),
    ensures
        s.seek_result(frame).in_range(),
        s.toggle_result().in_range(),
        s.tick_result(n_timestamps, frame_elapsed).in_range(),
{
}

/// A tick never moves backwards and moves at most one frame forward; a tick
/// whose frame time has elapsed lands on a frame at least as late as one
/// whose time has not (so playing faster never shows an earlier frame).
pub proof fn lemma_tick_monotone(s: PlaybackState, n_timestamps: nat)
    requires
        s.in_range(),
    ensures
        s.current_frame <= s.tick_result(n_timestamps, false).current_frame,
        s.tick_result(n_timestamps, false).current_frame
            <= s.tick_result(n_timestamps, true).current_frame,
        s.tick_result(n_timestamps, true).current_frame <= s.current_frame + 1,
        s.tick_result(n_timestamps, false).current_frame == s.current_frame,
{
}

/// A tick never changes the number of frames, never starts playback, and a
/// paused player (or one without frames) is left exactly as it was.
pub proof fn lemma_tick_paused_is_noop(s: PlaybackState, n_timestamps: nat, frame_elapsed: bool)
    ensures
        s.tick_result(n_timestamps, frame_elapsed).total_frames == s.total_frames,
        s.tick_result(n_timestamps, frame_elapsed).is_playing ==> s.is_playing,
        !s.is_playing || s.total_frames == 0 ==> s.tick_result(n_timestamps, frame_elapsed) == s,
{
}

/// When a tick stops playback, the track has ended: either there is no next
/// timestamp, or the player rests on the last frame.
pub proof fn lemma_tick_stops_only_at_end(s: PlaybackState, n_timestamps: nat, frame_elapsed: bool)
    requires
        s.is_playing,
        !s.tick_result(n_timestamps, frame_elapsed).is_playing,
    ensures
        s.current_frame + 1 >= n_timestamps || s.tick_result(
            n_timestamps,
            frame_elapsed,
        ).current_frame == last_frame(s.total_frames as nat),
{
}

/// Starting playback from the last frame replays from the first; toggling
/// twice away from the last frame restores the state.
pub proof fn lemma_toggle(s: PlaybackState)
    ensures
        s.current_frame + 1 >= s.total_frames ==> s.toggle_result().current_frame == 0,
        s.toggle_result().is_playing == !s.is_playing,
        s.current_frame + 1 < s.total_frames ==> s.toggle_result().toggle_result() == s,
{
}

/// Seeking is idempotent, and seeking to a frame that exists shows exactly that frame.
pub proof fn lemma_seek(s: PlaybackState, frame: usize)
    ensures
        s.seek_result(frame).seek_result(frame) == s.seek_result(frame),
        frame <= last_frame(s.total_frames as nat) ==> s.seek_result(frame).current_frame == frame,
        frame > last_frame(s.total_frames as nat) ==> s.seek_result(frame).current_frame
            == last_frame(s.total_frames as nat),
{
}

/// A playing tick that has a next timestamp measures exactly the gap
/// between the current frame and the one after it.
pub proof fn lemma_tick_measures_next_gap(s: PlaybackState, n_timestamps: nat)
    requires
        s.is_playing,
        s.total_frames > 0,
        s.current_frame + 1 < n_timestamps,
        s.current_frame < usize::MAX,
    ensures
        s.phase(n_timestamps) == (TickPhase::Frame {
            from: s.current_frame,
            to: (s.current_frame + 1) as usize,
        }),
        s.phase(n_timestamps) matches TickPhase::Frame { from, to } && from == s.current_frame
            && to == from + 1,
{
}

/// A playing tick with no next timestamp ends playback where it is, whether
/// or not any time was counted.
pub proof fn lemma_end_of_track_stops(s: PlaybackState, n_timestamps: nat, frame_elapsed: bool)
    requires
        s.is_playing,
        s.total_frames > 0,
        s.current_frame + 1 >= n_timestamps,
    ensures
        s.phase(n_timestamps) == TickPhase::EndOfTrack,
        !s.tick_result(n_timestamps, frame_elapsed).is_playing,
        s.tick_result(n_timestamps, frame_elapsed).current_frame == s.current_frame,
        s.tick_result(n_timestamps, frame_elapsed).total_frames == s.total_frames,
{
}

/// A playing tick whose frame time has elapsed shows the next frame, and
/// keeps playing unless that frame is the last one, where it stops.
pub proof fn lemma_elapsed_tick_advances(s: PlaybackState, n_timestamps: nat)
    requires
        s.is_playing,
        s.total_frames > 0,
        s.current_frame + 1 < n_timestamps,
        s.current_frame < usize::MAX,
    ensures
        s.current_frame + 2 < s.total_frames ==> s.tick_result(n_timestamps, true).current_frame
            == s.current_frame + 1 && s.tick_result(n_timestamps, true).is_playing,
        s.current_frame + 2 >= s.total_frames ==> s.tick_result(n_timestamps, true).current_frame
            == s.total_frames - 1 && !s.tick_result(n_timestamps, true).is_playing,
        s.tick_result(n_timestamps, false) == s,
{
}

} // verus!
