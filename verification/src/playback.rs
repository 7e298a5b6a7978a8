//! Playback: the engine interface and the bookkeeping an engine keeps about
//! what it has loaded and where it stands.
use crate::text::str_eq;
use vstd::prelude::*;

verus! {

/// A playback backend. Implementations decide how audio is decoded and
/// played; the interface only asks for these operations.
pub trait PlaybackEngine {
    fn load(&mut self, path: &str) -> Result<(), String>;

    fn play(&mut self) -> Result<(), String>;

    fn pause(&mut self) -> Result<(), String>;

    fn toggle(&mut self) -> Result<(), String>;

    fn seek_forward(&mut self, seconds: u64) -> Result<(), String>;

    fn seek_backward(&mut self, seconds: u64) -> Result<(), String>;

    /// Jump to an absolute position inside the loaded source; negative
    /// positions count as 0.
    fn seek_to_ms(&mut self, position_ms: i64) -> Result<(), String>;

    fn is_playing(&self) -> bool;

    fn current_position_ms(&self) -> i64;
}

/// What an engine has loaded and the position its current source started
/// at, in milliseconds. Seeking reloads the source at a new start.
pub struct PlaybackCursor {
    pub loaded_path: Option<String>,
    pub position_ms: u64,
}

/// `a + b`, saturating at the bounds of `i64`.
pub open spec fn sat_add_i64(a: int, b: int) -> int {
    if a + b > i64::MAX {
        i64::MAX as int
    } else if a + b < i64::MIN {
        i64::MIN as int
    } else {
        a + b
    }
}

/// `x` held to the range of `u64`.
pub open spec fn clamp_u64(x: int) -> int {
    if x < 0 {
        0
    } else if x > u64::MAX {
        u64::MAX as int
    } else {
        x
    }
}

/// Where playback stands `played_ms` after the cursor's last reload.
pub open spec fn current_ms(c: PlaybackCursor, played_ms: i64) -> int {
    sat_add_i64((c.position_ms as i64) as int, played_ms as int)
}

fn to_start(target: i128) -> (r: u64)
    ensures
        r == clamp_u64(target as int),
{
    if target < 0 {
        0
    } else if target > u64::MAX as i128 {
        u64::MAX
    } else {
        target as u64
    }
}

impl PlaybackCursor {
    /// Nothing loaded, position 0.
    pub fn new() -> (r: PlaybackCursor)
        ensures
            r.loaded_path is None,
            r.position_ms == 0,
    {
        PlaybackCursor { loaded_path: None, position_ms: 0 }
    }

    /// Whether a source is loaded.
    pub fn is_loaded(&self) -> (r: bool)
        ensures
            r == self.loaded_path is Some,
    {
        self.loaded_path.is_some()
    }

    /// Whether loading `path` needs a reload: anything but the loaded path.
    pub fn needs_load(&self, path: &str) -> (r: bool)
        ensures
            r == !(self.loaded_path matches Some(p) && p@ == path@),
    {
        match &self.loaded_path {
            Some(p) => !str_eq(p.as_str(), path),
            None => true,
        }
    }

    /// The start after seeking `seconds` forward from the current position,
    /// `played_ms` after the last reload (saturating).
    pub fn forward_target(&self, played_ms: i64, seconds: u64) -> (r: u64)
        ensures
            r == clamp_u64(current_ms(*self, played_ms) + seconds as int * 1000),
    {
        let current: i64 = self.position_with(played_ms);
        let target: i128 = current as i128 + seconds as i128 * 1000;
        to_start(target)
    }

    /// The start after seeking `seconds` back from the current position,
    /// `played_ms` after the last reload (stopping at 0).
    pub fn backward_target(&self, played_ms: i64, seconds: u64) -> (r: u64)
        ensures
            r == clamp_u64(current_ms(*self, played_ms) - seconds as int * 1000),
    {
        let current: i64 = self.position_with(played_ms);
        let target: i128 = current as i128 - seconds as i128 * 1000;
        to_start(target)
    }

    /// The start for an absolute seek; negative positions count as 0.
    pub fn seek_target(position_ms: i64) -> (r: u64)
        ensures
            r == if position_ms < 0 {
                0
            } else {
                position_ms as int
            },
    {
        if position_ms < 0 {
            0
        } else {
            position_ms as u64
        }
    }

    /// Records that `path` was (re)loaded to start at `position_ms`.
    pub fn record_load(&mut self, path: String, position_ms: u64)
        ensures
            final(self).loaded_path == Some(path),
            final(self).position_ms == position_ms,
    {
        self.loaded_path = Some(path);
        self.position_ms = position_ms;
    }

    /// Whether audio is playing: something is loaded and the player is not
    /// paused.
    pub fn playing(&self, paused: bool) -> (r: bool)
        ensures
            r == (self.loaded_path is Some && !paused),
    {
        self.loaded_path.is_some() && !paused
    }

    /// The position within the whole file: the source's start plus what the
    /// player has played of it, saturating.
    pub fn position_with(&self, played_ms: i64) -> (r: i64)
        ensures
            r == current_ms(*self, played_ms),
    {
        let start: i64 = self.position_ms as i64;
        match start.checked_add(played_ms) {
            Some(v) => v,
            None => if played_ms > 0 {
                i64::MAX
            } else {
                i64::MIN
            },
        }
    }
}

} // verus!
