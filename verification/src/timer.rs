//! The fixed-interval spawn timer.
//!
//! A new cube is due whenever the elapsed scene time has passed the recorded
//! deadline; recording a spawn moves the deadline one interval past the
//! current time.

use vstd::prelude::*;

verus! {

/// Milliseconds between cube spawns.
pub const SPAWN_INTERVAL_MS: u64 = 100;

/// The deadline after which the next cube is due, in milliseconds of elapsed
/// scene time. A fresh timer is due immediately on any positive elapsed time.
#[derive(Clone, Copy, PartialEq, Eq, Structural)]
pub struct SpawnTimer {
    pub next_spawn_ms: u64,
}

impl SpawnTimer {
    /// A timer that is due as soon as any scene time has elapsed.
    pub fn new() -> (r: SpawnTimer)
        ensures
            r.next_spawn_ms == 0,
    {
        SpawnTimer { next_spawn_ms: 0 }
    }

    /// Whether a spawn is due at `elapsed_ms`: the elapsed time is strictly
    /// past the deadline.
    pub fn is_due(&self, elapsed_ms: u64) -> (r: bool)
        ensures
            r == (elapsed_ms > self.next_spawn_ms),
    {
        elapsed_ms > self.next_spawn_ms
    }

    /// Advance the timer one frame. Returns whether a cube is to be spawned
    /// this frame; if so, the deadline moves one interval past `elapsed_ms`,
    /// otherwise the timer is unchanged.
    pub fn tick(&mut self, elapsed_ms: u64) -> (spawn: bool)
        requires
            elapsed_ms <= u64::MAX - SPAWN_INTERVAL_MS,
        ensures
            spawn == (elapsed_ms > old(self).next_spawn_ms),
            spawn ==> final(self).next_spawn_ms == elapsed_ms + SPAWN_INTERVAL_MS,
            !spawn ==> final(self).next_spawn_ms == old(self).next_spawn_ms,
    {
        if elapsed_ms > self.next_spawn_ms {
            self.next_spawn_ms = elapsed_ms + SPAWN_INTERVAL_MS;
            true
        } else {
            false
        }
    }
}

impl core::default::Default for SpawnTimer {
    /// The default timer is a fresh one.
    fn default() -> (r: SpawnTimer)
        ensures
            r.next_spawn_ms == 0,
    {
        SpawnTimer::new()
    }
}

} // verus!
