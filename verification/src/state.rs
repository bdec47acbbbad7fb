//! The record shared between the playback worker and its observers.

use vstd::prelude::*;

verus! {

/// The externally observable mode of the player.
#[derive(Clone, Copy, Debug, PartialEq, Eq, Structural)]
pub enum PlaybackStatus {
    /// No track is loaded.
    Stopped,
    /// A track is being fetched, deciphered and handed to the decoder.
    Loading,
    /// The decoder feeds the output device.
    Playing,
    /// Playback is suspended.
    Paused,
}

/// One consistent snapshot of the player: status and position are always
/// read and written together.
#[derive(Clone, Copy, Debug, PartialEq, Eq, Structural)]
pub struct PlayerState {
    /// Current mode.
    pub status: PlaybackStatus,
    /// Position in the track, in milliseconds, as of `position_measured_at`.
    pub position_ms: u32,
    /// Clock reading, in milliseconds, at which `position_ms` was taken.
    pub position_measured_at: i64,
    /// Clock reading, in milliseconds, of the last reported change.
    pub update_time: i64,
    /// Number of reported changes so far; it stops counting at `u64::MAX`.
    pub revision: u64,
}

/// The revision that follows `revision`.
pub open spec fn next_revision(revision: u64) -> u64 {
    if revision < u64::MAX {
        (revision + 1) as u64
    } else {
        revision
    }
}

/// Computes the revision that follows `revision`.
fn advance(revision: u64) -> (next: u64)
    ensures
        next == next_revision(revision),
{
    if revision < u64::MAX {
        revision + 1
    } else {
        revision
    }
}

impl PlayerState {
    /// The snapshot of a player that has not loaded anything yet.
    pub open spec fn initial(now: i64) -> PlayerState {
        PlayerState {
            status: PlaybackStatus::Stopped,
            position_ms: 0,
            position_measured_at: 0,
            update_time: now,
            revision: 0,
        }
    }

    /// Where playback is at clock reading `now`: a playing track has moved on
    /// by the time elapsed since the position was measured, any other stands
    /// where it was measured.
    pub open spec fn effective_position_at(self, now: int) -> int {
        if self.status == PlaybackStatus::Playing {
            self.position_ms + (now - self.position_measured_at)
        } else {
            self.position_ms as int
        }
    }

    /// Whether `self` reports a change that `baseline` has not seen.
    pub open spec fn newer_than(self, baseline: PlayerState) -> bool {
        self.revision > baseline.revision
    }

    /// This snapshot after a reported change at `now` that leaves the
    /// position as it is.
    pub open spec fn touched(self, status: PlaybackStatus, now: i64) -> PlayerState {
        PlayerState {
            status,
            update_time: now,
            revision: next_revision(self.revision),
            ..self
        }
    }

    /// This snapshot after a reported change at `now` that also places the
    /// track at `position_ms`.
    pub open spec fn moved(self, status: PlaybackStatus, position_ms: u32, now: i64) -> PlayerState {
        PlayerState {
            status,
            position_ms,
            position_measured_at: now,
            update_time: now,
            revision: next_revision(self.revision),
        }
    }

    /// This snapshot after the position was measured anew at `now`; this is
    /// not a reported change.
    pub open spec fn refreshed(self, position_ms: u32, now: i64) -> PlayerState {
        PlayerState { position_ms, position_measured_at: now, ..self }
    }

    /// Reports a change at `now` that leaves the position as it is.
    pub(crate) fn touch(&self, status: PlaybackStatus, now: i64) -> (state: PlayerState)
        ensures
            state == self.touched(status, now),
    {
        PlayerState {
            status,
            position_ms: self.position_ms,
            position_measured_at: self.position_measured_at,
            update_time: now,
            revision: advance(self.revision),
        }
    }

    /// Reports a change at `now` that also places the track at `position_ms`.
    pub(crate) fn move_to(&self, status: PlaybackStatus, position_ms: u32, now: i64) -> (state:
        PlayerState)
        ensures
            state == self.moved(status, position_ms, now),
    {
        PlayerState {
            status,
            position_ms,
            position_measured_at: now,
            update_time: now,
            revision: advance(self.revision),
        }
    }

    /// Measures the position anew at `now` without reporting a change.
    pub(crate) fn refresh(&self, position_ms: u32, now: i64) -> (state: PlayerState)
        ensures
            state == self.refreshed(position_ms, now),
    {
        PlayerState {
            status: self.status,
            position_ms,
            position_measured_at: now,
            update_time: self.update_time,
            revision: self.revision,
        }
    }

    /// Creates the snapshot of a player that has not loaded anything yet.
    pub fn new(now: i64) -> (state: PlayerState)
        ensures
            state == PlayerState::initial(now),
    {
        PlayerState {
            status: PlaybackStatus::Stopped,
            position_ms: 0,
            position_measured_at: 0,
            update_time: now,
            revision: 0,
        }
    }

    /// The current mode.
    pub fn status(&self) -> (status: PlaybackStatus)
        ensures
            status == self.status,
    {
        self.status
    }

    /// The measured position and the clock reading it was measured at.
    pub fn position(&self) -> (position: (u32, i64))
        ensures
            position == (self.position_ms, self.position_measured_at),
    {
        (self.position_ms, self.position_measured_at)
    }

    /// The clock reading of the last reported change.
    pub fn update_time(&self) -> (time: i64)
        ensures
            time == self.update_time,
    {
        self.update_time
    }

    /// The number of reported changes so far.
    pub fn revision(&self) -> (revision: u64)
        ensures
            revision == self.revision,
    {
        self.revision
    }

    /// Computes where playback is at clock reading `now`.
    pub fn effective_position(&self, now: i64) -> (position: i128)
        ensures
            position == self.effective_position_at(now as int),
    {
        match self.status {
            PlaybackStatus::Playing => {
                self.position_ms as i128 + (now as i128 - self.position_measured_at as i128)
            },
            _ => self.position_ms as i128,
        }
    }

    /// Tells whether `self` reports a change that `baseline` has not seen.
    pub fn is_newer_than(&self, baseline: &PlayerState) -> (newer: bool)
        ensures
            newer == self.newer_than(*baseline),
    {
        self.revision > baseline.revision
    }
}

} // verus!
