use crate::constants::SECOND_US;
use vstd::prelude::*;

verus! {

/// Latest clock reading the playlist accepts, in microseconds.
pub const MAX_CLOCK_US: i64 = 4_611_686_018_427_387_904;

/// Track selection of the in-game music: `]` skips ahead, `[` restarts the
/// current track, and a second `[` within a second goes back one track.
#[derive(Clone, Copy, Debug)]
pub struct Playlist {
    pub current_track_index: usize,
    pub track_count: usize,
    /// Clock reading of the last `[`, in microseconds.
    pub last_prev_press_time: i64,
}

impl Playlist {
    pub open spec fn wf(&self) -> bool {
        &&& (self.track_count > 0 ==> self.current_track_index < self.track_count)
        &&& -10 * SECOND_US <= self.last_prev_press_time <= MAX_CLOCK_US
    }

    /// A playlist of `track_count` tracks, at the first one, with no recent
    /// `[`.
    pub fn new(track_count: usize) -> (p: Self)
        ensures
            p.wf(),
            p.current_track_index == 0,
            p.track_count == track_count,
            p.last_prev_press_time == -10 * SECOND_US,
    {
        Playlist { current_track_index: 0, track_count, last_prev_press_time: -10 * SECOND_US }
    }

    /// Goes back to the first track (a new game starts with it).
    pub fn rewind(&mut self)
        requires
            old(self).wf(),
        ensures
            final(self).wf(),
            final(self).current_track_index == 0,
            final(self).track_count == old(self).track_count,
            final(self).last_prev_press_time == old(self).last_prev_press_time,
    {
        self.current_track_index = 0;
    }

    /// `]`: the next track, wrapping to the first. Returns whether a track
    /// is to be (re)started, which needs a non-empty playlist.
    pub fn next_track(&mut self) -> (play: bool)
        requires
            old(self).wf(),
        ensures
            final(self).wf(),
            play == (old(self).track_count > 0),
            final(self).track_count == old(self).track_count,
            final(self).last_prev_press_time == old(self).last_prev_press_time,
            final(self).current_track_index == if play {
                (old(self).current_track_index + 1) % (old(self).track_count as int)
            } else {
                old(self).current_track_index as int
            },
    {
        if self.track_count == 0 {
            return false;
        }
        self.current_track_index = (self.current_track_index + 1) % self.track_count;
        true
    }

    /// `[` at clock `now_us`: within a second of the previous `[` it goes
    /// back one track (wrapping to the last), otherwise it restarts the
    /// current track. Returns whether a track is to be (re)started, which
    /// needs a non-empty playlist.
    pub fn previous_or_restart(&mut self, now_us: i64) -> (play: bool)
        requires
            old(self).wf(),
            0 <= now_us <= MAX_CLOCK_US,
        ensures
            final(self).wf(),
            play == (old(self).track_count > 0),
            final(self).track_count == old(self).track_count,
            !play ==> *final(self) == *old(self),
            play ==> final(self).last_prev_press_time == now_us,
            play ==> final(self).current_track_index == if now_us
                - old(self).last_prev_press_time < SECOND_US {
                if old(self).current_track_index == 0 {
                    old(self).track_count - 1
                } else {
                    old(self).current_track_index - 1
                }
            } else {
                old(self).current_track_index as int
            },
    {
        if self.track_count == 0 {
            return false;
        }
        if now_us - self.last_prev_press_time < SECOND_US {
            if self.current_track_index == 0 {
                self.current_track_index = self.track_count - 1;
            } else {
                self.current_track_index = self.current_track_index - 1;
            }
        }
        self.last_prev_press_time = now_us;
        true
    }
}

} // verus!
