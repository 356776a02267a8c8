//! The fishing mini-game: line tension against a hooked fish.

use crate::common::clamp;
use crate::data::{FightStyle, UNIT};
use crate::mapgen::TileKind;
use vstd::prelude::*;

verus! {

/// How one turn of the mini-game ended.
#[derive(Clone, Copy, Debug, PartialEq, Eq, Structural)]
pub enum MeterState {
    /// The fight goes on.
    Ongoing,
    /// The fish was landed.
    Success,
    /// The tension reached the limit and the line snapped.
    Broken,
    /// The line went slack and the fish escaped.
    Lost,
}

/// Tension of the line over the turns of one catch attempt.
#[derive(Debug)]
pub struct TensionMeter {
    /// Current tension.
    pub tension: i32,
    /// Tension at which the line breaks.
    pub max_tension: i32,
    /// Turns left until the fish is landed.
    pub duration: i32,
    /// Pull of the hooked fish.
    pub strength: i32,
    /// Behaviour of the hooked fish.
    pub style: FightStyle,
    /// Reeling effectiveness in thousandths.
    pub reel_factor: i32,
}

/// Tension that one turn of reeling takes off the line: ten times the reel
/// factor, rounded to the nearest integer, halves away from zero.
pub open spec fn reel_reduction(reel_factor: int) -> int {
    if reel_factor >= 0 {
        (reel_factor + 50) / 100
    } else {
        -((50 - reel_factor) / 100)
    }
}

/// Tension that the fish adds in a turn in which the player does not reel,
/// or `None` where the fish lets the line go slack.
pub open spec fn fish_pull(style: FightStyle, strength: int, duration: int, tension: int) -> Option<int> {
    match style {
        FightStyle::Aggressive => Some(2 * strength),
        FightStyle::Endurance => if duration > 2 {
            Some(strength)
        } else {
            Some(truncated_half(strength))
        },
        FightStyle::Evasive => if tension <= 5 {
            None
        } else {
            Some(strength)
        },
    }
}

/// Half of `n`, rounded towards zero.
pub open spec fn truncated_half(n: int) -> int {
    if n >= 0 {
        n / 2
    } else {
        -((-n) / 2)
    }
}

impl TensionMeter {
    /// The tension lies between zero and the breaking point.
    pub open spec fn wf(self) -> bool {
        0 <= self.tension <= self.max_tension
    }

    /// Tension after the turn, before it is held within `0..=max_tension`.
    pub open spec fn raw_tension(self, reel: bool) -> int {
        if reel {
            self.tension - reel_reduction(self.reel_factor as int)
        } else {
            match fish_pull(self.style, self.strength as int, self.duration as int, self.tension as int) {
                Some(pull) => self.tension + pull,
                None => 0,
            }
        }
    }

    /// Tension after the turn.
    pub open spec fn next_tension(self, reel: bool) -> int {
        clamp(self.raw_tension(reel), 0, self.max_tension as int)
    }

    /// Outcome of the turn. The line breaking takes precedence over the fish
    /// escaping, and the escape over the landing.
    pub open spec fn outcome(self, reel: bool) -> MeterState {
        if self.next_tension(reel) >= self.max_tension {
            MeterState::Broken
        } else if self.tension > 0 && self.next_tension(reel) == 0 {
            MeterState::Lost
        } else if self.duration - 1 <= 0 {
            MeterState::Success
        } else {
            MeterState::Ongoing
        }
    }

    /// The meter after the turn.
    pub open spec fn next(self, reel: bool) -> TensionMeter {
        TensionMeter {
            tension: self.next_tension(reel) as i32,
            duration: (self.duration - 1) as i32,
            ..self
        }
    }

    /// A slack line for a freshly hooked fish: no tension, a breaking point
    /// of 100 and five turns to go.
    pub fn new(strength: i32, style: FightStyle, reel_factor: i32) -> (m: Self)
        ensures
            m == (TensionMeter { tension: 0, max_tension: 100, duration: 5, strength, style, reel_factor }),
            m.wf(),
    {
        Self { tension: 0, max_tension: 100, duration: 5, strength, style, reel_factor }
    }

    /// Plays one turn. With `reel` the player takes tension off the line;
    /// otherwise the fish pulls according to its style. The turn counter
    /// goes down by one either way.
    pub fn update(&mut self, reel: bool) -> (state: MeterState)
        requires
            old(self).wf(),
            old(self).duration > i32::MIN,
        ensures
            *final(self) == old(self).next(reel),
            state == old(self).outcome(reel),
            final(self).wf(),
            final(self).tension >= final(self).max_tension ==> state == MeterState::Broken,
            state == MeterState::Broken ==> final(self).tension == final(self).max_tension,
    {
        let before = self.tension;
        let max = self.max_tension as i64;
        let raw: i64 = if reel {
            let rf = self.reel_factor as i64;
            let reduction: i64 = if rf >= 0 {
                (rf + 50) / 100
            } else {
                -((50 - rf) / 100)
            };
            before as i64 - reduction
        } else {
            match self.style {
                FightStyle::Aggressive => before as i64 + 2 * (self.strength as i64),
                FightStyle::Endurance => {
                    let bonus = if self.duration > 2 {
                        self.strength
                    } else {
                        self.strength / 2
                    };
                    before as i64 + bonus as i64
                },
                FightStyle::Evasive => {
                    if before <= 5 {
                        0
                    } else {
                        before as i64 + self.strength as i64
                    }
                },
            }
        };
        let held: i64 = if raw < 0 {
            0
        } else if raw > max {
            max
        } else {
            raw
        };
        self.tension = held as i32;
        self.duration = self.duration - 1;
        if held >= max {
            MeterState::Broken
        } else if before > 0 && held == 0 {
            MeterState::Lost
        } else if self.duration <= 0 {
            MeterState::Success
        } else {
            MeterState::Ongoing
        }
    }
}

impl Default for TensionMeter {
    /// A meter for a fish of strength 5 that fights aggressively, reeled at
    /// factor one.
    fn default() -> (m: Self)
        ensures
            m == (TensionMeter {
                tension: 0,
                max_tension: 100,
                duration: 5,
                strength: 5,
                style: FightStyle::Aggressive,
                reel_factor: UNIT,
            }),
    {
        Self::new(5, FightStyle::Aggressive, UNIT)
    }
}

/// Part of the bite probability, in thousandths, that the water under the
/// lure contributes.
pub open spec fn depth_bonus(tile: TileKind) -> int {
    match tile {
        TileKind::Land => 0,
        TileKind::ShallowWater => 100,
        TileKind::DeepWater => 300,
    }
}

/// Bite probability in thousandths: a base of 300, plus the water's and the
/// bait's bonus, held within `0..=1000`.
pub open spec fn bite_chance(tile: TileKind, bait_bonus: int) -> int {
    clamp(300 + depth_bonus(tile) + bait_bonus, 0, 1000)
}

/// Chance, in thousandths, that a fish bites in one turn of waiting.
pub fn bite_probability(tile: TileKind, bait_bonus: i32) -> (p: i32)
    ensures
        p == bite_chance(tile, bait_bonus as int),
        0 <= p <= 1000,
{
    let bonus: i64 = match tile {
        TileKind::ShallowWater => 100,
        TileKind::DeepWater => 300,
        TileKind::Land => 0,
    };
    let sum: i64 = 300 + bonus + bait_bonus as i64;
    if sum < 0 {
        0
    } else if sum > 1000 {
        1000
    } else {
        sum as i32
    }
}

/// Whether a roll drawn uniformly from `0..1000` means a bite at the given
/// chance in thousandths.
pub fn is_bite(roll: i32, chance: i32) -> (b: bool)
    ensures
        b == (roll < chance),
{
    roll < chance
}

/// Two meters in the same state, played the same way, end in the same state
/// with the same outcome.
pub proof fn lemma_update_deterministic(a: TensionMeter, b: TensionMeter, reel: bool)
    requires
        a.tension == b.tension,
        a.max_tension == b.max_tension,
        a.duration == b.duration,
        a.strength == b.strength,
        a.style == b.style,
        a.reel_factor == b.reel_factor,
    ensures
        a.next(reel) == b.next(reel),
        a.outcome(reel) == b.outcome(reel),
{
}

/// A turn that leaves the tension at the breaking point or above ends in
/// `Broken`, also when the turn counter runs out in the same turn.
pub proof fn lemma_broken_takes_precedence(m: TensionMeter, reel: bool)
    requires
        m.wf(),
        m.next(reel).tension >= m.max_tension,
    ensures
        m.outcome(reel) == MeterState::Broken,
{
}

} // verus!
