//! Sound effects and the volume they are played at.

use vstd::prelude::*;

verus! {

/// Loudest volume level.
pub const MAX_VOLUME: u8 = 10;

/// A sound effect.
#[derive(Clone, Copy, Debug, PartialEq, Eq, Structural)]
pub enum Sound {
    Hit,
    LineSnap,
    Catch,
    Storm,
}

/// A volume level held within `0..=10`.
pub open spec fn capped(volume: u8) -> u8 {
    if volume > MAX_VOLUME {
        MAX_VOLUME
    } else {
        volume
    }
}

/// Keeps the playback volume, a level from 0 to 10.
#[derive(Debug)]
pub struct AudioManager {
    volume: u8,
}

impl AudioManager {
    /// The current volume level.
    pub closed spec fn level(self) -> u8 {
        self.volume
    }

    #[verifier::type_invariant]
    spec fn within_range(self) -> bool {
        self.volume <= MAX_VOLUME
    }

    /// A manager at the given volume, capped at 10.
    pub fn new(volume: u8) -> (m: Self)
        ensures
            m.level() == capped(volume),
    {
        Self { volume: if volume > MAX_VOLUME { MAX_VOLUME } else { volume } }
    }

    /// Sets the volume, capped at 10.
    pub fn set_volume(&mut self, volume: u8)
        ensures
            final(self).level() == capped(volume),
    {
        self.volume = if volume > MAX_VOLUME { MAX_VOLUME } else { volume };
    }

    /// The current volume level.
    pub fn volume(&self) -> (v: u8)
        ensures
            v == self.level(),
            v <= MAX_VOLUME,
    {
        proof {
            use_type_invariant(self);
        }
        self.volume
    }
}

} // verus!
