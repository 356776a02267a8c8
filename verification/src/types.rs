//! The player, hazards and the areas of the sea.

use crate::common::Point;
use crate::data::{FishType, ItemType};
use vstd::prelude::*;

verus! {

/// Most hit points a player can have.
pub const MAX_HP: i32 = 10;

/// Hunger level of a player who has just eaten his fill.
pub const MAX_HUNGER: i32 = 100;

/// Integrity of a new line.
pub const MAX_LINE: i32 = 100;

/// The player: where he is, how he fares, and what he carries.
#[derive(Debug)]
pub struct Player {
    pub pos: Point,
    /// Hit points left.
    pub hp: i32,
    /// Hunger level from 0 to 100; at 0 the player starves.
    pub hunger: i32,
    /// Integrity of the fishing line, from 0 to 100.
    pub line: i32,
    /// Added to the bite probability, in thousandths, by the equipped lure.
    pub bait_bonus: i32,
    /// Added to the tension the line can take by the equipped rod.
    pub tension_bonus: i32,
    /// Reeling effectiveness, in thousandths, of the equipped reel.
    pub reel_factor: i32,
    /// Cans of food carried.
    pub canned_food: i32,
    /// Fish caught and not yet eaten.
    pub inventory: Vec<FishType>,
    /// Gear and food carried but not equipped.
    pub items: Vec<ItemType>,
    /// Equipped rod.
    pub rod: Option<ItemType>,
    /// Equipped reel.
    pub reel: Option<ItemType>,
    /// Equipped lure.
    pub lure: Option<ItemType>,
}

impl Player {
    /// Hit points, hunger and line integrity are within their ranges.
    pub open spec fn vitals_ok(self) -> bool {
        &&& 0 <= self.hp <= MAX_HP
        &&& 0 <= self.hunger <= MAX_HUNGER
        &&& 0 <= self.line <= MAX_LINE
        &&& 0 <= self.canned_food
    }
}

/// A jellyfish: it stings the player on contact until its turns run out.
#[derive(Clone, Copy, Debug, PartialEq, Eq, Structural)]
pub struct Hazard {
    pub pos: Point,
    /// Turns left.
    pub turns: u8,
}

/// A stage of the journey out to sea.
#[derive(Clone, Copy, Debug, PartialEq, Eq, Structural)]
pub enum Area {
    Coast,
    Offshore,
    DeepSea,
}

impl Area {
    /// Width and height of the area's map.
    pub open spec fn dimensions(self) -> (u32, u32) {
        match self {
            Area::Coast => (80, 50),
            Area::Offshore => (120, 80),
            Area::DeepSea => (160, 120),
        }
    }

    /// How much more often hazards appear than on the coast.
    pub open spec fn hazard_factor(self) -> int {
        match self {
            Area::Coast => 1,
            Area::Offshore => 2,
            Area::DeepSea => 3,
        }
    }

    /// Areas that still lie ahead.
    pub open spec fn areas_ahead(self) -> int {
        match self {
            Area::Coast => 2,
            Area::Offshore => 1,
            Area::DeepSea => 0,
        }
    }

    /// Width and height of the area's map.
    pub fn size(self) -> (s: (u32, u32))
        ensures
            s == self.dimensions(),
    {
        match self {
            Area::Coast => (80, 50),
            Area::Offshore => (120, 80),
            Area::DeepSea => (160, 120),
        }
    }

    /// How much more often hazards appear than on the coast.
    pub fn hazard_multiplier(self) -> (m: i32)
        ensures
            m == self.hazard_factor(),
    {
        match self {
            Area::Coast => 1,
            Area::Offshore => 2,
            Area::DeepSea => 3,
        }
    }
}

} // verus!
