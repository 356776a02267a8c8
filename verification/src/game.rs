//! The session: one run of the game, advanced a turn at a time.

use crate::audio::{AudioManager, Sound};
use crate::codex::Codex;
use crate::common::{clamp, clamp_i64, GameError, GameResult, Point};
use crate::data::{FishType, ItemKind, ItemType, UNIT};
use crate::ecology::{sampleable, spawn_fish_population_with, Fish};
use crate::fishing::TensionMeter;
use crate::keys::InputConfig;
use crate::line::line_path;
use crate::mapgen::{generate, terrain_tiles, GameMap, NoiseField, TileKind};
use crate::text::{decimal, push_decimal};
use crate::types::{Area, Hazard, Player, MAX_HP, MAX_HUNGER, MAX_LINE};
use crate::ui::{UIContext, UILayout};
use bracket_lib::prelude::RandomNumberGenerator;
use vstd::prelude::*;
use vstd::string::StringExecFns;

verus! {

/// Width of the part of the map that is on screen.
pub const VIEW_WIDTH: i32 = 60;

/// Height of the part of the map that is on screen.
pub const VIEW_HEIGHT: i32 = 17;

/// Line integrity lost when the line snaps or a jellyfish stings.
pub const LINE_DAMAGE: i32 = 15;

/// Hit points lost to a jellyfish sting.
pub const HAZARD_DAMAGE: i32 = 1;

/// Turns a jellyfish stays.
pub const HAZARD_DURATION: u8 = 3;

/// Chance in percent, per turn in deep water, that a jellyfish appears on
/// the coast at normal difficulty.
pub const HAZARD_CHANCE: i32 = 8;

/// Hunger stilled by a raw fish.
pub const EAT_RAW_FISH: i32 = 20;

/// Hunger stilled by a cooked fish.
pub const EAT_COOKED_FISH: i32 = 40;

/// Hunger stilled by a can of food.
pub const EAT_CANNED_FOOD: i32 = 60;

/// Hit points restored by a cooked fish.
pub const COOK_HP_RESTORE: i32 = 2;

/// Turns in each of the four times of day.
pub const TIME_SEGMENT_TURNS: u32 = 10;

/// Turns after which the tide turns.
pub const TIDE_TURNS: u32 = 20;

/// Fish spawned in each area.
pub const POPULATION: usize = 5;

/// Turns between casting and the first chance of a bite.
pub const CAST_WAIT: u8 = 2;

/// Captures after which the offshore area opens.
pub const OFFSHORE_CAPTURES: u32 = 3;

/// Captures after which the deep sea opens.
pub const DEEP_SEA_CAPTURES: u32 = 6;

/// What the player is doing. Exactly one mode is active at a time, and it
/// decides what a turn does.
#[derive(Clone, Copy, Debug, PartialEq, Eq, Structural)]
pub enum GameMode {
    Exploring,
    Aiming { target: Point },
    Fishing { wait: u8 },
    End { score: i32 },
}

/// How hard the run is: how fast hunger grows and how often hazards appear.
#[derive(Clone, Copy, Debug, PartialEq, Eq, Structural)]
pub enum Difficulty {
    Easy,
    Normal,
    Hard,
}

impl Default for Difficulty {
    fn default() -> (d: Self)
        ensures
            d == Difficulty::Normal,
    {
        Difficulty::Normal
    }
}

impl Difficulty {
    /// Hunger lost in the given turn: one every other turn when easy, one
    /// per turn normally, two per turn when hard.
    pub open spec fn hunger_lost(self, turn: int) -> int {
        match self {
            Difficulty::Easy => if turn % 2 == 0 {
                1
            } else {
                0
            },
            Difficulty::Normal => 1,
            Difficulty::Hard => 2,
        }
    }

    /// Chance in percent, per turn in deep water, that a jellyfish appears:
    /// half the base chance when easy and twice it when hard, times the
    /// area's factor.
    pub open spec fn hazard_percent(self, area: Area) -> int {
        let base: int = match self {
            Difficulty::Easy => HAZARD_CHANCE / 2,
            Difficulty::Normal => HAZARD_CHANCE as int,
            Difficulty::Hard => HAZARD_CHANCE * 2,
        };
        base * area.hazard_factor()
    }

    /// Hunger lost in the given turn.
    pub fn hunger_loss(self, turn: u32) -> (loss: i32)
        ensures
            loss == self.hunger_lost(turn as int),
            0 <= loss <= 2,
    {
        match self {
            Difficulty::Easy => {
                if turn % 2 == 0 {
                    1
                } else {
                    0
                }
            },
            Difficulty::Normal => 1,
            Difficulty::Hard => 2,
        }
    }

    /// Chance in percent, per turn in deep water, that a jellyfish appears.
    pub fn hazard_chance(self, area: Area) -> (chance: i32)
        ensures
            chance == self.hazard_percent(area),
            0 < chance <= 48,
    {
        let base = match self {
            Difficulty::Easy => HAZARD_CHANCE / 2,
            Difficulty::Normal => HAZARD_CHANCE,
            Difficulty::Hard => HAZARD_CHANCE * 2,
        };
        base * area.hazard_multiplier()
    }
}

/// Something the session asks its host to do after a turn. The session
/// itself touches neither the disk nor the screen nor the speakers.
#[derive(Clone, Copy, Debug, PartialEq, Eq, Structural)]
pub enum Effect {
    /// Play a sound effect.
    Play(Sound),
    /// Write the codex to disk.
    SaveCodex,
    /// Write the key bindings and options to disk.
    SaveConfig,
    /// Write the session snapshot to disk and report back how it went.
    SaveGame,
    /// Leave the program.
    Quit,
}

/// Whether a noise field holds a sample that gives water.
pub open spec fn gives_water(samples: Seq<i32>) -> bool {
    exists|i: int| 0 <= i < samples.len() && #[trigger] samples[i] < 0
}

/// Whether `field` can serve as the terrain of `area` under the given seed:
/// it was sampled for that seed and at the area's size.
pub open spec fn field_fits(field: NoiseField, area: Area, seed: int) -> bool {
    &&& field.wf()
    &&& field.seed == seed
    &&& (field.width, field.height) == area.dimensions()
}

/// Whether `field` can serve as the terrain of `area` under the given seed.
pub fn fits(field: &NoiseField, area: Area, seed: u64) -> (b: bool)
    ensures
        b == field_fits(*field, area, seed as int),
{
    let (w, h) = area.size();
    assert(w * h <= 19_200) by (nonlinear_arith)
        requires
            w <= 160,
            h <= 120,
    ;
    let cells = (w * h) as usize;
    field.seed == seed && field.width == w && field.height == h && field.samples.len() == cells
}

/// Whether a noise field holds a sample that gives water.
pub fn holds_water(field: &NoiseField) -> (b: bool)
    ensures
        b == gives_water(field.samples@),
{
    let n = field.samples.len();
    let mut i: usize = 0;
    while i < n
        invariant
            i <= n,
            n == field.samples@.len(),
            forall|k: int| 0 <= k < i ==> field.samples@[k] >= 0,
        decreases n - i,
    {
        if field.samples[i] < 0 {
            return true;
        }
        i += 1;
    }
    false
}

/// The noise fields of the areas that lie ahead of the current one. The
/// seed goes up by one with each area reached.
#[derive(Debug)]
pub struct Charts {
    pub offshore: NoiseField,
    pub deep_sea: NoiseField,
}

impl Charts {
    /// Whether the charts cover every area ahead of `area`, each sampled
    /// for the seed the session will have there, and each with water to
    /// spawn fish on. Charts of areas that do not lie ahead are not looked
    /// at.
    pub open spec fn wf_for(self, area: Area, seed: int) -> bool {
        match area {
            Area::Coast => {
                &&& field_fits(self.offshore, Area::Offshore, seed + 1)
                &&& gives_water(self.offshore.samples@)
                &&& field_fits(self.deep_sea, Area::DeepSea, seed + 2)
                &&& gives_water(self.deep_sea.samples@)
            },
            Area::Offshore => {
                &&& field_fits(self.deep_sea, Area::DeepSea, seed + 1)
                &&& gives_water(self.deep_sea.samples@)
            },
            Area::DeepSea => true,
        }
    }

    /// Whether the charts cover every area ahead of `area`.
    pub fn valid_for(&self, area: Area, seed: u64) -> (b: bool)
        requires
            seed + area.areas_ahead() <= u64::MAX,
        ensures
            b == self.wf_for(area, seed as int),
    {
        match area {
            Area::Coast => fits(&self.offshore, Area::Offshore, seed + 1) && holds_water(
                &self.offshore,
            ) && fits(&self.deep_sea, Area::DeepSea, seed + 2) && holds_water(&self.deep_sea),
            Area::Offshore => fits(&self.deep_sea, Area::DeepSea, seed + 1) && holds_water(
                &self.deep_sea,
            ),
            Area::DeepSea => true,
        }
    }
}

/// A map made from a noise field holds water exactly where the field does.
pub proof fn lemma_terrain_water(samples: Seq<i32>)
    ensures
        gives_water(samples) <==> exists|i: int|
            0 <= i < terrain_tiles(samples).len() && (#[trigger] terrain_tiles(samples)[i]).is_water(),
{
    let tiles = terrain_tiles(samples);
    if gives_water(samples) {
        let i = choose|i: int| 0 <= i < samples.len() && #[trigger] samples[i] < 0;
        assert(tiles[i].is_water());
    }
    if exists|i: int| 0 <= i < tiles.len() && (#[trigger] tiles[i]).is_water() {
        let i = choose|i: int| 0 <= i < tiles.len() && (#[trigger] tiles[i]).is_water();
        assert(samples[i] < 0);
    }
}

/// What a session starts from: the reference data, the terrain, and what
/// was kept from earlier runs.
#[derive(Debug)]
pub struct Assets {
    pub fish_types: Vec<FishType>,
    pub items: Vec<ItemType>,
    /// The noise field of the starting area.
    pub terrain: NoiseField,
    /// The noise fields of the areas ahead.
    pub charts: Charts,
    pub input: InputConfig,
    pub codex: Codex,
}

/// One run of the game.
pub struct LurhookGame {
    pub player: Player,
    pub map: GameMap,
    pub fishes: Vec<Fish>,
    pub ui: UIContext,
    pub input: InputConfig,
    /// Water depth under the player.
    pub depth: i32,
    pub time_of_day: &'static str,
    pub turn: u32,
    pub rng: RandomNumberGenerator,
    pub difficulty: Difficulty,
    pub mode: GameMode,
    /// The fight with the hooked fish, while there is one.
    pub meter: Option<TensionMeter>,
    /// Whether the player reels this turn.
    pub reeling: bool,
    /// Turns the storm still lasts.
    pub storm_turns: u8,
    pub hazards: Vec<Hazard>,
    /// Cells the cast line flies over, for the animation.
    pub cast_path: Option<Vec<Point>>,
    /// Cells of the cast path that are drawn.
    pub cast_step: usize,
    pub inventory_cursor: usize,
    /// Whether the keys work the inventory.
    pub inventory_focus: bool,
    pub codex: Codex,
    pub audio: AudioManager,
    pub area: Area,
    pub seed: u64,
    pub fish_types: Vec<FishType>,
    pub charts: Charts,
    /// What the host has yet to do, oldest first.
    pub effects: Vec<Effect>,
}

/// The label of each time of day, in the order of the day.
pub open spec fn time_label(index: int) -> Seq<char> {
    if index == 0 {
        "Dawn"@
    } else if index == 1 {
        "Day"@
    } else if index == 2 {
        "Dusk"@
    } else {
        "Night"@
    }
}

/// The time of day in the given turn: the day has four parts of ten turns
/// each.
pub open spec fn time_at(turn: int) -> Seq<char> {
    time_label((turn / (TIME_SEGMENT_TURNS as int)) % 4)
}

/// The label of a time of day.
pub fn time_name(index: u32) -> (label: &'static str)
    ensures
        label@ == time_label(index as int),
{
    if index == 0 {
        "Dawn"
    } else if index == 1 {
        "Day"
    } else if index == 2 {
        "Dusk"
    } else {
        "Night"
    }
}

/// Points that a caught fish of the given rarity weight, in thousandths,
/// is worth: ten divided by the weight in units, rounded to the nearest
/// point. A weight of zero is worth as much as a score can hold.
pub open spec fn fish_score(rarity: int) -> int {
    if rarity <= 0 {
        i32::MAX as int
    } else {
        (20_000 + rarity) / (2 * rarity)
    }
}

/// Points that the first `n` fish of an inventory are worth together.
pub open spec fn score_sum(inventory: Seq<FishType>, n: int) -> int
    decreases n,
{
    if n <= 0 {
        0
    } else {
        score_sum(inventory, n - 1) + fish_score(inventory[n - 1].rarity as int)
    }
}

/// The score of an inventory: the points of all its fish, capped at what a
/// score can hold.
pub open spec fn score_of(inventory: Seq<FishType>) -> int {
    let sum = score_sum(inventory, inventory.len() as int);
    if sum > i32::MAX {
        i32::MAX as int
    } else {
        sum
    }
}

/// The points of the first fish never go down as more fish are counted.
pub proof fn lemma_score_sum_monotonic(inventory: Seq<FishType>, a: int, b: int)
    requires
        0 <= a <= b,
    ensures
        0 <= score_sum(inventory, a) <= score_sum(inventory, b),
    decreases b,
{
    if b > a {
        lemma_score_sum_monotonic(inventory, a, b - 1);
        let r = inventory[b - 1].rarity as int;
        if r > 0 {
            assert((20_000 + r) / (2 * r) >= 0) by (nonlinear_arith)
                requires
                    r > 0,
            ;
        }
    } else if a > 0 {
        lemma_score_sum_monotonic(inventory, a - 1, a - 1);
        let r = inventory[a - 1].rarity as int;
        if r > 0 {
            assert((20_000 + r) / (2 * r) >= 0) by (nonlinear_arith)
                requires
                    r > 0,
            ;
        }
    }
}

/// The first item of the given kind in a list, if there is one.
pub open spec fn first_of(items: Seq<ItemType>, kind: ItemKind) -> Option<ItemType>
    decreases items.len(),
{
    if items.len() == 0 {
        None
    } else if items[0].kind == kind {
        Some(items[0])
    } else {
        first_of(items.drop_first(), kind)
    }
}

/// A list without its first item of the given kind, the others in order.
pub open spec fn without_first(items: Seq<ItemType>, kind: ItemKind) -> Seq<ItemType>
    decreases items.len(),
{
    if items.len() == 0 {
        items
    } else if items[0].kind == kind {
        items.drop_first()
    } else {
        seq![items[0]] + without_first(items.drop_first(), kind)
    }
}

/// Where the first `at` items are of other kinds, the first item of the
/// kind is the one at `at` if that is of the kind, and there is none if
/// the list ends there.
pub proof fn lemma_first_of(items: Seq<ItemType>, kind: ItemKind, at: int)
    requires
        0 <= at <= items.len(),
        forall|k: int| 0 <= k < at ==> items[k].kind != kind,
        at < items.len() ==> items[at].kind == kind,
    ensures
        at < items.len() ==> first_of(items, kind) == Some(items[at]) && without_first(items, kind)
            == items.remove(at),
        at == items.len() ==> first_of(items, kind).is_none() && without_first(items, kind)
            == items,
    decreases at,
{
    if at > 0 {
        let rest = items.drop_first();
        assert forall|k: int| 0 <= k < at - 1 implies rest[k].kind != kind by {
            assert(rest[k] == items[k + 1]);
        }
        lemma_first_of(rest, kind, at - 1);
        if at < items.len() {
            assert(seq![items[0]] + rest.remove(at - 1) =~= items.remove(at));
        } else {
            assert(seq![items[0]] + rest =~= items);
        }
    } else if at < items.len() {
        assert(items.drop_first() =~= items.remove(0));
    }
}

/// Takes the first item of the given kind out of the list, if there is one.
pub fn take_first(items: &mut Vec<ItemType>, kind: ItemKind) -> (taken: Option<ItemType>)
    ensures
        taken == first_of(old(items)@, kind),
        final(items)@ == without_first(old(items)@, kind),
{
    let n = items.len();
    let mut at: usize = 0;
    while at < n
        invariant
            at <= n,
            n == items@.len(),
            items@ == old(items)@,
            forall|k: int| 0 <= k < at ==> items@[k].kind != kind,
        decreases n - at,
    {
        if items[at].kind == kind {
            proof {
                lemma_first_of(items@, kind, at as int);
            }
            let item = items.remove(at);
            return Some(item);
        }
        at += 1;
    }
    proof {
        lemma_first_of(items@, kind, n as int);
    }
    None
}

impl LurhookGame {
    /// What every operation of a session relies on: the map is big enough
    /// for the screen, the player and the fish are on it, the bookkeeping
    /// of codex and mini-game is sound, and the areas ahead are charted.
    pub open spec fn wf(self) -> bool {
        &&& self.map.wf()
        &&& self.map.width >= VIEW_WIDTH
        &&& self.map.height >= VIEW_HEIGHT
        &&& self.map.width * self.map.height <= i32::MAX
        &&& self.map.in_bounds(self.player.pos)
        &&& forall|k: int|
            0 <= k < self.fishes@.len() ==> self.map.in_bounds((#[trigger] self.fishes@[k]).position)
        &&& self.codex.wf()
        &&& (self.meter matches Some(m) ==> m.wf() && m.duration > i32::MIN)
        &&& self.charts.wf_for(self.area, self.seed as int)
        &&& self.seed + self.area.areas_ahead() <= u64::MAX
        &&& sampleable(self.fish_types@)
    }

    /// The current mode.
    pub fn mode(&self) -> (m: GameMode)
        ensures
            m == self.mode,
    {
        self.mode
    }

    /// Top-left cell of the part of the map that is on screen: centred on
    /// the player as far as the map's edges allow.
    pub open spec fn camera_at(self) -> (int, int) {
        (
            clamp(self.player.pos.x - VIEW_WIDTH / 2, 0, self.map.width - VIEW_WIDTH),
            clamp(self.player.pos.y - VIEW_HEIGHT / 2, 0, self.map.height - VIEW_HEIGHT),
        )
    }

    /// Top-left cell of the part of the map that is on screen.
    pub fn camera(&self) -> (c: (i32, i32))
        requires
            self.map.width >= VIEW_WIDTH,
            self.map.height >= VIEW_HEIGHT,
            self.map.width <= i32::MAX,
            self.map.height <= i32::MAX,
        ensures
            (c.0 as int, c.1 as int) == self.camera_at(),
    {
        let half_w = (VIEW_WIDTH / 2) as i64;
        let half_h = (VIEW_HEIGHT / 2) as i64;
        let x = clamp_i64(
            self.player.pos.x as i64 - half_w,
            0,
            self.map.width as i64 - VIEW_WIDTH as i64,
        );
        let y = clamp_i64(
            self.player.pos.y as i64 - half_h,
            0,
            self.map.height as i64 - VIEW_HEIGHT as i64,
        );
        (x as i32, y as i32)
    }

    /// Where a step by `delta` takes the player: as far as the map's edges
    /// allow.
    pub open spec fn stepped(self, delta: Point) -> Point {
        Point {
            x: clamp(self.player.pos.x + delta.x, 0, self.map.width - 1) as i32,
            y: clamp(self.player.pos.y + delta.y, 0, self.map.height - 1) as i32,
        }
    }

    /// Whether `next` is `self` after the player has stepped by `delta`.
    pub open spec fn moved_by(self, next: LurhookGame, delta: Point) -> bool {
        next == (LurhookGame {
            player: Player { pos: self.stepped(delta), ..self.player },
            depth: self.map.depth_at(self.stepped(delta)) as i32,
            ..self
        })
    }

    /// Moves the player by `delta`, stopping at the map's edges, and takes
    /// the depth there.
    pub fn try_move(&mut self, delta: Point)
        requires
            old(self).map.wf(),
            old(self).map.width >= 1,
            old(self).map.height >= 1,
        ensures
            old(self).moved_by(*final(self), delta),
            final(self).map.in_bounds(final(self).player.pos),
            old(self).wf() ==> final(self).wf(),
    {
        let x = clamp_i64(
            self.player.pos.x as i64 + delta.x as i64,
            0,
            self.map.width as i64 - 1,
        );
        let y = clamp_i64(
            self.player.pos.y as i64 + delta.y as i64,
            0,
            self.map.height as i64 - 1,
        );
        self.player.pos.x = x as i32;
        self.player.pos.y = y as i32;
        self.depth = self.map.depth(self.player.pos);
    }

    /// The score of the run so far.
    pub fn score(&self) -> (s: i32)
        ensures
            s == score_of(self.player.inventory@),
            s >= 0,
    {
        let n = self.player.inventory.len();
        let mut sum: i64 = 0;
        let mut i: usize = 0;
        while i < n
            invariant
                i <= n,
                n == self.player.inventory@.len(),
                0 <= sum <= i32::MAX,
                sum == score_sum(self.player.inventory@, i as int) || (sum == i32::MAX
                    && score_sum(self.player.inventory@, i as int) > i32::MAX),
            decreases n - i,
        {
            let rarity = self.player.inventory[i].rarity as i64;
            let points: i64 = if rarity == 0 {
                i32::MAX as i64
            } else {
                (20_000 + rarity) / (2 * rarity)
            };
            proof {
                lemma_score_sum_monotonic(self.player.inventory@, i as int, i + 1);
                assert(points == fish_score(rarity as int));
                assert(0 <= points <= i32::MAX) by {
                    if rarity > 0 {
                        assert((20_000 + rarity) / (2 * rarity) <= 20_000) by (nonlinear_arith)
                            requires
                                rarity > 0,
                        ;
                        assert((20_000 + rarity) / (2 * rarity) >= 0) by (nonlinear_arith)
                            requires
                                rarity > 0,
                        ;
                    }
                }
            }
            sum = sum + points;
            if sum > i32::MAX as i64 {
                sum = i32::MAX as i64;
            }
            i += 1;
        }
        proof {
            lemma_score_sum_monotonic(self.player.inventory@, 0, n as int);
        }
        sum as i32
    }

    /// Whether `next` is `self` after the run was ended: the score is
    /// announced and becomes the final mode.
    pub open spec fn run_ended(self, next: LurhookGame) -> bool {
        let score = score_of(self.player.inventory@);
        &&& next.ui.said(self.ui, seq!["Run ended! Final score: "@ + decimal(score)])
        &&& next.ui.layout == self.ui.layout
        &&& next == (LurhookGame { mode: GameMode::End { score: score as i32 }, ui: next.ui, ..self })
    }

    /// Ends the run.
    pub fn end_run(&mut self)
        ensures
            old(self).run_ended(*final(self)),
            old(self).wf() ==> final(self).wf(),
    {
        let score = self.score();
        let mut msg = String::from_str("Run ended! Final score: ");
        push_decimal(&mut msg, score);
        let _ = self.ui.add_log(msg.as_str());
        self.mode = GameMode::End { score };
    }

    /// Whether `next` is `self` after a cast was begun. With line
    /// integrity left and fish about, the player aims from where he
    /// stands; otherwise the mode stays as it is. The log says which.
    pub open spec fn cast_done(self, next: LurhookGame) -> bool {
        let ready = self.player.line > 0 && self.fishes@.len() > 0;
        &&& next.ui.said(
            self.ui,
            seq![
                if self.player.line <= 0 {
                    "Your line is broken!"@
                } else if self.fishes@.len() == 0 {
                    "No fish around."@
                } else {
                    "Select target..."@
                },
            ],
        )
        &&& next.ui.layout == self.ui.layout
        &&& next == (LurhookGame {
            mode: if ready {
                GameMode::Aiming { target: self.player.pos }
            } else {
                self.mode
            },
            ui: next.ui,
            ..self
        })
    }

    /// Starts aiming a cast from where the player stands. Without line
    /// integrity, or without any fish about, the mode stays as it is and a
    /// message says why.
    pub fn cast(&mut self)
        ensures
            old(self).cast_done(*final(self)),
            old(self).player.line <= 0 ==> final(self).mode == old(self).mode,
            old(self).wf() ==> final(self).wf(),
    {
        if self.player.line <= 0 {
            let _ = self.ui.add_log("Your line is broken!");
            return ;
        }
        if self.fishes.len() == 0 {
            let _ = self.ui.add_log("No fish around.");
            return ;
        }
        let _ = self.ui.add_log("Select target...");
        self.mode = GameMode::Aiming { target: self.player.pos };
    }

    /// Whether `next` is `self` after the cast was confirmed: from aiming,
    /// the line's path to the target is laid out and the wait for a bite
    /// begins; in any other mode nothing happens.
    pub open spec fn cast_confirmed(self, next: LurhookGame) -> bool {
        match self.mode {
            GameMode::Aiming { target } => {
                &&& next.cast_path matches Some(path) && path@ == crate::line::line_cells(
                    self.player.pos,
                    target,
                ).drop_first()
                &&& next.ui.said(self.ui, seq!["Casting..."@])
                &&& next.ui.layout == UILayout::Fishing
                &&& next == (LurhookGame {
                    mode: GameMode::Fishing { wait: CAST_WAIT },
                    cast_path: next.cast_path,
                    cast_step: 0,
                    ui: next.ui,
                    ..self
                })
            },
            _ => next == self,
        }
    }

    /// Casts at the target aimed at.
    pub fn confirm_cast(&mut self)
        ensures
            old(self).cast_confirmed(*final(self)),
            old(self).wf() ==> final(self).wf(),
    {
        if let GameMode::Aiming { target } = self.mode {
            let _ = self.ui.add_log("Casting...");
            self.cast_path = Some(line_path(self.player.pos, target));
            self.cast_step = 0;
            self.ui.set_layout(UILayout::Fishing);
            self.mode = GameMode::Fishing { wait: CAST_WAIT };
        }
    }
}

/// The cell in the middle of the map, where a player enters an area.
pub open spec fn centre(map: GameMap) -> Point {
    Point { x: (map.width / 2) as i32, y: (map.height / 2) as i32 }
}

/// Hunger level after eating something that stills `by` hunger.
pub open spec fn fed(hunger: int, by: int) -> int {
    if hunger + by > MAX_HUNGER {
        MAX_HUNGER as int
    } else {
        hunger + by
    }
}

/// Hit points after a cooked meal.
pub open spec fn healed(hp: int) -> int {
    if hp + COOK_HP_RESTORE > MAX_HP {
        MAX_HP as int
    } else {
        hp + COOK_HP_RESTORE
    }
}

/// Line integrity after the line has snapped or been stung.
pub open spec fn frayed(line: int) -> int {
    if line <= 0 {
        line
    } else if line - LINE_DAMAGE < 0 {
        0
    } else {
        line - LINE_DAMAGE
    }
}

/// Tension that the line takes with a rod of the given bonus: 100 plus the
/// bonus, and never below zero.
pub open spec fn breaking_point(bonus: int) -> int {
    clamp(100 + bonus, 0, i32::MAX as int)
}

/// The area that a session in `area` is in once `total` captures are in
/// the codex: the next one, if the captures have reached its threshold.
pub open spec fn area_after(area: Area, total: int) -> Area {
    match area {
        Area::Coast => if total >= OFFSHORE_CAPTURES {
            Area::Offshore
        } else {
            Area::Coast
        },
        Area::Offshore => if total >= DEEP_SEA_CAPTURES {
            Area::DeepSea
        } else {
            Area::Offshore
        },
        Area::DeepSea => Area::DeepSea,
    }
}

/// What the log says when an area opens.
pub open spec fn unlock_message(area: Area) -> Seq<char> {
    if area == Area::Offshore {
        "Unlocked offshore area!"@
    } else {
        "Unlocked deep sea!"@
    }
}

/// What the equipped lure adds to the bite probability, in thousandths.
pub open spec fn bite_bonus_of(lure: Option<ItemType>) -> int {
    match lure {
        Some(item) => item.bite_bonus as int,
        None => 0,
    }
}

/// What the equipped rod adds to the tension the line takes.
pub open spec fn tension_bonus_of(rod: Option<ItemType>) -> int {
    match rod {
        Some(item) => item.tension_bonus as int,
        None => 0,
    }
}

/// The reeling effectiveness, in thousandths, that the equipped reel
/// gives: one unit without a reel.
pub open spec fn reel_factor_of(reel: Option<ItemType>) -> int {
    match reel {
        Some(item) => item.reel_factor as int,
        None => UNIT as int,
    }
}

/// Hunger level after eating something that stills `by` hunger.
pub fn feed(hunger: i32, by: i32) -> (h: i32)
    requires
        0 <= by <= MAX_HUNGER,
    ensures
        h == fed(hunger as int, by as int),
{
    if hunger as i64 + by as i64 > MAX_HUNGER as i64 {
        MAX_HUNGER
    } else {
        hunger + by
    }
}

impl LurhookGame {
    /// Whether `game` is a session freshly started from `assets`: the
    /// first rod, reel and lure among the items are equipped, the map is
    /// the one the terrain gives, the fish are spawned on it, the player
    /// stands in its middle in full health, and the help panel is up.
    pub open spec fn started(
        game: LurhookGame,
        seed: u64,
        difficulty: Difficulty,
        area: Area,
        assets: Assets,
    ) -> bool {
        let no_rod = without_first(assets.items@, ItemKind::Rod);
        let no_reel = without_first(no_rod, ItemKind::Reel);
        let rod = first_of(assets.items@, ItemKind::Rod);
        let reel = first_of(no_rod, ItemKind::Reel);
        let lure = first_of(no_reel, ItemKind::Lure);
        &&& game.map.width == assets.terrain.width
        &&& game.map.height == assets.terrain.height
        &&& game.map.tiles@ == terrain_tiles(assets.terrain.samples@)
        &&& game.map.depths@ == crate::mapgen::terrain_depths(assets.terrain.samples@)
        &&& crate::ecology::spawned(game.map, assets.fish_types@, POPULATION as int, game.fishes@)
        &&& game.player.pos == centre(game.map)
        &&& game.player.hp == MAX_HP
        &&& game.player.hunger == MAX_HUNGER
        &&& game.player.line == MAX_LINE
        &&& game.player.canned_food == 0
        &&& game.player.inventory@.len() == 0
        &&& game.player.rod == rod
        &&& game.player.reel == reel
        &&& game.player.lure == lure
        &&& game.player.items@ == without_first(no_reel, ItemKind::Lure)
        &&& game.player.bait_bonus == bite_bonus_of(lure)
        &&& game.player.tension_bonus == tension_bonus_of(rod)
        &&& game.player.reel_factor == reel_factor_of(reel)
        &&& game.depth == game.map.depth_at(game.player.pos)
        &&& game.ui.logs@.len() == 0
        &&& game.ui.scroll == 0
        &&& game.ui.layout == UILayout::Help
        &&& game.input == assets.input
        &&& game.time_of_day@ == "Dawn"@
        &&& game.turn == 0
        &&& game.difficulty == difficulty
        &&& game.mode == GameMode::Exploring
        &&& game.meter.is_none()
        &&& !game.reeling
        &&& game.storm_turns == 0
        &&& game.hazards@.len() == 0
        &&& game.cast_path.is_none()
        &&& game.cast_step == 0
        &&& game.inventory_cursor == 0
        &&& !game.inventory_focus
        &&& game.codex == assets.codex
        &&& game.audio.level() == crate::audio::capped(assets.input.volume)
        &&& game.area == area
        &&& game.seed == seed
        &&& game.fish_types == assets.fish_types
        &&& game.charts == assets.charts
        &&& game.effects@.len() == 0
    }

    /// Starts a session in the given area. The seed decides every draw of
    /// the session: those that spawn the fish, and those of the turns to
    /// come. Fails with `InvalidOperation` where there is no species or
    /// no item to play with, or no water to spawn fish on.
    pub fn new_with_area(seed: u64, difficulty: Difficulty, area: Area, assets: Assets) -> (r:
        GameResult<Self>)
        requires
            field_fits(assets.terrain, area, seed as int),
            assets.charts.wf_for(area, seed as int),
            seed + area.areas_ahead() <= u64::MAX,
            assets.codex.wf(),
            assets.fish_types@.len() > 0 ==> sampleable(assets.fish_types@),
        ensures
            assets.fish_types@.len() == 0 || assets.items@.len() == 0 || !gives_water(
                assets.terrain.samples@,
            ) ==> r matches Err(GameError::InvalidOperation),
            assets.fish_types@.len() > 0 && assets.items@.len() > 0 && gives_water(
                assets.terrain.samples@,
            ) ==> (r matches Ok(game) && game.wf() && Self::started(
                game,
                seed,
                difficulty,
                area,
                assets,
            )),
    {
        let Assets { fish_types, items, terrain, charts, input, codex } = assets;
        if fish_types.len() == 0 || items.len() == 0 {
            return Err(GameError::InvalidOperation);
        }
        let mut items = items;
        let rod = take_first(&mut items, ItemKind::Rod);
        let reel = take_first(&mut items, ItemKind::Reel);
        let lure = take_first(&mut items, ItemKind::Lure);
        let bait_bonus = match &lure {
            Some(item) => item.bite_bonus,
            None => 0,
        };
        let tension_bonus = match &rod {
            Some(item) => item.tension_bonus,
            None => 0,
        };
        let reel_factor = match &reel {
            Some(item) => item.reel_factor,
            None => UNIT,
        };
        proof {
            lemma_terrain_water(terrain.samples@);
            assert(terrain.width * terrain.height <= 19_200) by (nonlinear_arith)
                requires
                    terrain.width <= 160,
                    terrain.height <= 120,
            ;
        }
        let map = generate(&terrain)?;
        let mut spawner = RandomNumberGenerator::seeded(seed);
        let fishes = spawn_fish_population_with(
            &map,
            fish_types.as_slice(),
            POPULATION,
            &mut spawner,
        )?;
        let start = Point::new((map.width / 2) as i32, (map.height / 2) as i32);
        let depth = map.depth(start);
        let mut ui = UIContext::default();
        ui.set_layout(UILayout::Help);
        let game = Self {
            player: Player {
                pos: start,
                hp: MAX_HP,
                hunger: MAX_HUNGER,
                line: MAX_LINE,
                bait_bonus,
                tension_bonus,
                reel_factor,
                canned_food: 0,
                inventory: Vec::new(),
                items,
                rod,
                reel,
                lure,
            },
            map,
            fishes,
            ui,
            input,
            depth,
            time_of_day: time_name(0),
            turn: 0,
            rng: RandomNumberGenerator::seeded(seed),
            difficulty,
            mode: GameMode::Exploring,
            meter: None,
            reeling: false,
            storm_turns: 0,
            hazards: Vec::new(),
            cast_path: None,
            cast_step: 0,
            inventory_cursor: 0,
            inventory_focus: false,
            codex,
            audio: AudioManager::new(input.volume),
            area,
            seed,
            fish_types,
            charts,
            effects: Vec::new(),
        };
        Ok(game)
    }

    /// Starts a session on the coast.
    pub fn new_with_difficulty(seed: u64, difficulty: Difficulty, assets: Assets) -> (r: GameResult<
        Self,
    >)
        requires
            field_fits(assets.terrain, Area::Coast, seed as int),
            assets.charts.wf_for(Area::Coast, seed as int),
            seed + 2 <= u64::MAX,
            assets.codex.wf(),
            assets.fish_types@.len() > 0 ==> sampleable(assets.fish_types@),
        ensures
            assets.fish_types@.len() == 0 || assets.items@.len() == 0 || !gives_water(
                assets.terrain.samples@,
            ) ==> r matches Err(GameError::InvalidOperation),
            assets.fish_types@.len() > 0 && assets.items@.len() > 0 && gives_water(
                assets.terrain.samples@,
            ) ==> (r matches Ok(game) && game.wf() && Self::started(
                game,
                seed,
                difficulty,
                Area::Coast,
                assets,
            )),
    {
        Self::new_with_area(seed, difficulty, Area::Coast, assets)
    }

    /// Starts a session on the coast at normal difficulty.
    pub fn new(seed: u64, assets: Assets) -> (r: GameResult<Self>)
        requires
            field_fits(assets.terrain, Area::Coast, seed as int),
            assets.charts.wf_for(Area::Coast, seed as int),
            seed + 2 <= u64::MAX,
            assets.codex.wf(),
            assets.fish_types@.len() > 0 ==> sampleable(assets.fish_types@),
        ensures
            assets.fish_types@.len() == 0 || assets.items@.len() == 0 || !gives_water(
                assets.terrain.samples@,
            ) ==> r matches Err(GameError::InvalidOperation),
            assets.fish_types@.len() > 0 && assets.items@.len() > 0 && gives_water(
                assets.terrain.samples@,
            ) ==> (r matches Ok(game) && game.wf() && Self::started(
                game,
                seed,
                Difficulty::Normal,
                Area::Coast,
                assets,
            )),
    {
        Self::new_with_difficulty(seed, Difficulty::Normal, assets)
    }

    /// Lines of the inventory panel: the names of the items carried, then
    /// those of the fish, or a note that there is nothing.
    pub open spec fn inventory_text(self) -> Seq<Seq<char>> {
        let items = self.player.items@;
        let fish = self.player.inventory@;
        if items.len() + fish.len() == 0 {
            seq!["(empty)"@]
        } else {
            Seq::new(
                items.len() + fish.len(),
                |i: int|
                    if i < items.len() {
                        items[i].name@
                    } else {
                        fish[i - items.len()].name@
                    },
            )
        }
    }

    /// Lines of the inventory panel.
    pub fn inventory_lines(&self) -> (lines: Vec<String>)
        ensures
            crate::ui::texts(lines@) == self.inventory_text(),
    {
        let mut lines: Vec<String> = Vec::new();
        let n = self.player.items.len();
        let m = self.player.inventory.len();
        let mut i: usize = 0;
        while i < n
            invariant
                i <= n,
                n == self.player.items@.len(),
                lines@.len() == i,
                forall|k: int| 0 <= k < i ==> lines@[k]@ == self.player.items@[k].name@,
            decreases n - i,
        {
            lines.push(self.player.items[i].name.clone());
            i += 1;
        }
        let mut j: usize = 0;
        while j < m
            invariant
                j <= m,
                n == self.player.items@.len(),
                m == self.player.inventory@.len(),
                lines@.len() == n + j,
                forall|k: int| 0 <= k < n ==> lines@[k]@ == self.player.items@[k].name@,
                forall|k: int| 0 <= k < j ==> lines@[n + k]@ == self.player.inventory@[k].name@,
            decreases m - j,
        {
            lines.push(self.player.inventory[j].name.clone());
            j += 1;
        }
        if lines.len() == 0 {
            lines.push(String::from_str("(empty)"));
        }
        assert(crate::ui::texts(lines@) =~= self.inventory_text());
        lines
    }

    /// Whether `next` is `self` after eating the newest fish raw, or after
    /// finding that there is none.
    pub open spec fn ate_raw(self, next: LurhookGame) -> bool {
        if self.player.inventory@.len() > 0 {
            &&& next.ui.said(self.ui, seq!["You ate a raw fish."@])
            &&& next.ui.layout == self.ui.layout
            &&& next == (LurhookGame {
                player: Player {
                    inventory: next.player.inventory,
                    hunger: fed(self.player.hunger as int, EAT_RAW_FISH as int) as i32,
                    ..self.player
                },
                ui: next.ui,
                ..self
            })
            &&& next.player.inventory@ == self.player.inventory@.drop_last()
        } else {
            &&& next.ui.said(self.ui, seq!["No fish to eat."@])
            &&& next.ui.layout == self.ui.layout
            &&& next == (LurhookGame {
                player: Player { inventory: next.player.inventory, ..self.player },
                ui: next.ui,
                ..self
            })
            &&& next.player.inventory@.len() == 0
        }
    }

    /// Eats the newest fish of the inventory raw.
    pub fn eat_fish(&mut self)
        ensures
            old(self).ate_raw(*final(self)),
            old(self).wf() ==> final(self).wf(),
            old(self).player.vitals_ok() ==> final(self).player.vitals_ok(),
    {
        match self.player.inventory.pop() {
            Some(_fish) => {
                assert(self.player.inventory@ =~= old(self).player.inventory@.drop_last());
                self.player.hunger = feed(self.player.hunger, EAT_RAW_FISH);
                let _ = self.ui.add_log("You ate a raw fish.");
            },
            None => {
                let _ = self.ui.add_log("No fish to eat.");
            },
        }
    }

    /// Whether `next` is `self` after cooking and eating the newest fish,
    /// which takes land under the feet and a fish in the inventory.
    pub open spec fn cooked(self, next: LurhookGame) -> bool {
        if self.map.tile_at(self.player.pos) != TileKind::Land {
            &&& next.ui.said(self.ui, seq!["You need to be on land to cook."@])
            &&& next.ui.layout == self.ui.layout
            &&& next == (LurhookGame { ui: next.ui, ..self })
        } else if self.player.inventory@.len() > 0 {
            &&& next.ui.said(self.ui, seq!["You cooked and ate a fish."@])
            &&& next.ui.layout == self.ui.layout
            &&& next == (LurhookGame {
                player: Player {
                    inventory: next.player.inventory,
                    hunger: fed(self.player.hunger as int, EAT_COOKED_FISH as int) as i32,
                    hp: healed(self.player.hp as int) as i32,
                    ..self.player
                },
                ui: next.ui,
                ..self
            })
            &&& next.player.inventory@ == self.player.inventory@.drop_last()
        } else {
            &&& next.ui.said(self.ui, seq!["No fish to cook."@])
            &&& next.ui.layout == self.ui.layout
            &&& next == (LurhookGame {
                player: Player { inventory: next.player.inventory, ..self.player },
                ui: next.ui,
                ..self
            })
            &&& next.player.inventory@.len() == 0
        }
    }

    /// Cooks and eats the newest fish of the inventory, which stills more
    /// hunger than a raw one and restores hit points.
    pub fn cook_fish(&mut self)
        requires
            old(self).map.wf(),
            old(self).map.in_bounds(old(self).player.pos),
        ensures
            old(self).cooked(*final(self)),
            old(self).wf() ==> final(self).wf(),
            old(self).player.vitals_ok() ==> final(self).player.vitals_ok(),
    {
        if self.map.tile(self.player.pos) != TileKind::Land {
            let _ = self.ui.add_log("You need to be on land to cook.");
            return ;
        }
        match self.player.inventory.pop() {
            Some(_fish) => {
                assert(self.player.inventory@ =~= old(self).player.inventory@.drop_last());
                self.player.hunger = feed(self.player.hunger, EAT_COOKED_FISH);
                self.player.hp = if self.player.hp as i64 + COOK_HP_RESTORE as i64 > MAX_HP as i64 {
                    MAX_HP
                } else {
                    self.player.hp + COOK_HP_RESTORE
                };
                let _ = self.ui.add_log("You cooked and ate a fish.");
            },
            None => {
                let _ = self.ui.add_log("No fish to cook.");
            },
        }
    }

    /// Whether `next` is `self` after eating a can of food, or after
    /// finding that there is none.
    pub open spec fn ate_can(self, next: LurhookGame) -> bool {
        if self.player.canned_food > 0 {
            &&& next.ui.said(self.ui, seq!["You ate canned food."@])
            &&& next.ui.layout == self.ui.layout
            &&& next == (LurhookGame {
                player: Player {
                    canned_food: (self.player.canned_food - 1) as i32,
                    hunger: fed(self.player.hunger as int, EAT_CANNED_FOOD as int) as i32,
                    ..self.player
                },
                ui: next.ui,
                ..self
            })
        } else {
            &&& next.ui.said(self.ui, seq!["No canned food available."@])
            &&& next.ui.layout == self.ui.layout
            &&& next == (LurhookGame { ui: next.ui, ..self })
        }
    }

    /// Eats a can of food.
    pub fn eat_canned_food(&mut self)
        ensures
            old(self).ate_can(*final(self)),
            old(self).wf() ==> final(self).wf(),
            old(self).player.vitals_ok() ==> final(self).player.vitals_ok(),
    {
        if self.player.canned_food > 0 {
            self.player.canned_food -= 1;
            self.player.hunger = feed(self.player.hunger, EAT_CANNED_FOOD);
            let _ = self.ui.add_log("You ate canned food.");
        } else {
            let _ = self.ui.add_log("No canned food available.");
        }
    }
}

} // verus!
