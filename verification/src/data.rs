//! Reference data: fish species and gear items.
//!
//! Fractional quantities are fixed-point numbers in thousandths: a rarity
//! weight of `1.0` is stored as `1000`, a reel factor of `1.5` as `1500`, a
//! bite bonus of `0.2` as `200`.

use vstd::prelude::*;

verus! {

/// One whole unit of a fixed-point quantity.
pub const UNIT: i32 = 1000;

/// How a hooked fish fights the line.
#[derive(Clone, Copy, Debug, PartialEq, Eq, Structural)]
pub enum FightStyle {
    /// Sudden large tension spikes.
    Aggressive,
    /// A long fight in which the fish tires towards the end.
    Endurance,
    /// Goes slack and slips away when the line is nearly loose.
    Evasive,
}

/// A fish species.
#[derive(Debug)]
pub struct FishType {
    pub id: String,
    pub name: String,
    /// Rarity weight in thousandths. Heavier species are sampled more often
    /// and score less.
    pub rarity: u32,
    pub strength: i32,
    /// Shallowest depth, in meters, at which the species lives.
    pub min_depth: i32,
    /// Deepest depth, in meters, at which the species lives.
    pub max_depth: i32,
    pub fight_style: FightStyle,
    /// Marks extremely rare boss fish.
    pub legendary: bool,
}

impl Clone for FishType {
    fn clone(&self) -> (r: Self)
        ensures
            r == *self,
    {
        FishType {
            id: self.id.clone(),
            name: self.name.clone(),
            rarity: self.rarity,
            strength: self.strength,
            min_depth: self.min_depth,
            max_depth: self.max_depth,
            fight_style: self.fight_style,
            legendary: self.legendary,
        }
    }
}

impl FishType {
    /// Whether a tile of the given depth suits the species.
    pub open spec fn lives_at(self, depth: int) -> bool {
        self.min_depth <= depth <= self.max_depth
    }

    /// Whether a tile of the given depth suits the species.
    pub fn suits_depth(&self, depth: i32) -> (b: bool)
        ensures
            b == self.lives_at(depth as int),
    {
        depth >= self.min_depth && depth <= self.max_depth
    }
}

/// What a gear item is used for.
#[derive(Clone, Copy, Debug, PartialEq, Eq, Structural)]
pub enum ItemKind {
    Rod,
    Reel,
    Lure,
    Food,
}

/// A gear item.
#[derive(Debug)]
pub struct ItemType {
    pub id: String,
    pub name: String,
    pub kind: ItemKind,
    /// Added to the tension a line can take when the item is the equipped rod.
    pub tension_bonus: i32,
    /// Reeling effectiveness in thousandths when the item is the equipped reel.
    pub reel_factor: i32,
    /// Added to the bite probability, in thousandths, when the item is the
    /// equipped lure.
    pub bite_bonus: i32,
}

impl Clone for ItemType {
    fn clone(&self) -> (r: Self)
        ensures
            r == *self,
    {
        ItemType {
            id: self.id.clone(),
            name: self.name.clone(),
            kind: self.kind,
            tension_bonus: self.tension_bonus,
            reel_factor: self.reel_factor,
            bite_bonus: self.bite_bonus,
        }
    }
}

} // verus!
