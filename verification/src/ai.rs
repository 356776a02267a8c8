//! What the world does each turn: time, hunger, weather and hazards.

use crate::common::Point;
use crate::ecology::gap;
use crate::game::{
    frayed, time_at, time_name, LurhookGame, HAZARD_DAMAGE, HAZARD_DURATION, LINE_DAMAGE,
    TIDE_TURNS, TIME_SEGMENT_TURNS,
};
use crate::mapgen::TileKind;
use crate::random::roll;
use crate::types::{Hazard, Player, MAX_HP};
use vstd::prelude::*;

verus! {

/// Turns a storm lasts.
pub const STORM_TURNS: u8 = 5;

/// How far the player sees in deep water.
pub const DEEP_SIGHT: i32 = 5;

/// How far the player sees in deep water during a storm.
pub const STORM_SIGHT: i32 = 3;

/// Chance in percent, per turn on land, that something turns up.
pub const SHORE_CHANCE: i32 = 10;

/// Chance in percent, per turn in deep water, that a storm breaks.
pub const STORM_CHANCE: i32 = 5;

/// A hazard one turn later.
pub open spec fn aged(hazard: Hazard) -> Hazard {
    if hazard.turns > 0 {
        Hazard { turns: (hazard.turns - 1) as u8, ..hazard }
    } else {
        hazard
    }
}

/// The first `n` hazards one turn later, without those whose turns have
/// run out.
pub open spec fn survivors(hazards: Seq<Hazard>, n: int) -> Seq<Hazard>
    decreases n,
{
    if n <= 0 {
        Seq::empty()
    } else {
        let rest = survivors(hazards, n - 1);
        if aged(hazards[n - 1]).turns > 0 {
            rest.push(aged(hazards[n - 1]))
        } else {
            rest
        }
    }
}

/// How many of the first `n` hazards are at `pos`.
pub open spec fn stings(hazards: Seq<Hazard>, pos: Point, n: int) -> int
    decreases n,
{
    if n <= 0 {
        0
    } else {
        stings(hazards, pos, n - 1) + if hazards[n - 1].pos == pos {
            1int
        } else {
            0int
        }
    }
}

/// Hit points after `n` stings: each takes one while any are left.
pub open spec fn stung(hp: int, n: int) -> int {
    if hp <= 0 {
        hp
    } else if n * HAZARD_DAMAGE >= hp {
        0
    } else {
        hp - n * HAZARD_DAMAGE
    }
}

/// How many of `n` stings are felt: those that find hit points to take.
pub open spec fn felt(hp: int, n: int) -> int {
    if hp <= 0 {
        0
    } else if n >= hp {
        hp
    } else {
        n
    }
}

/// Line integrity after `n` stings.
pub open spec fn frayed_by(line: int, n: int) -> int
    decreases n,
{
    if n <= 0 {
        line
    } else {
        frayed(frayed_by(line, n - 1))
    }
}

/// The message of a sting, as often as stings were felt.
pub open spec fn sting_messages(n: int) -> Seq<Seq<char>> {
    Seq::new(n as nat, |k: int| "A jellyfish stings you!"@)
}

impl LurhookGame {
    /// Turns the storm still lasts after this turn.
    pub open spec fn storm_ticked(self) -> u8 {
        if self.storm_turns > 0 {
            (self.storm_turns - 1) as u8
        } else {
            0
        }
    }

    /// Hunger level after the turn `turn`: down by what the difficulty
    /// takes, and never below zero.
    pub open spec fn hunger_ticked(self, turn: int) -> int {
        let loss = self.difficulty.hunger_lost(turn);
        if self.player.hunger > 0 && self.player.hunger - loss < 0 {
            0
        } else if self.player.hunger > 0 {
            self.player.hunger - loss
        } else {
            self.player.hunger as int
        }
    }

    /// Hit points after the turn: a starving player loses one while any
    /// are left.
    pub open spec fn hp_ticked(self) -> int {
        if self.player.hunger <= 0 && self.player.hp > 0 {
            self.player.hp - 1
        } else {
            self.player.hp as int
        }
    }

    /// Whether the player's hunger reaches zero in the turn `turn`.
    pub open spec fn starves_in(self, turn: int) -> bool {
        self.player.hunger > 0 && self.difficulty.hunger_lost(turn) > 0 && self.hunger_ticked(turn)
            == 0
    }

    /// Whether `next` is `self` one turn later, before anything happens
    /// on the tile the player stands on: the storm has abated by a turn,
    /// the turn counter and the time of day have moved on, and hunger or
    /// starvation has taken its toll.
    pub open spec fn clock_ticked(self, next: LurhookGame) -> bool {
        let turn = self.turn + 1;
        &&& next.time_of_day@ == time_at(turn)
        &&& next.ui.said(
            self.ui,
            if self.starves_in(turn) {
                seq!["You are starving!"@]
            } else {
                Seq::empty()
            },
        )
        &&& next.ui.layout == self.ui.layout
        &&& next == (LurhookGame {
            storm_turns: self.storm_ticked(),
            turn: turn as u32,
            time_of_day: next.time_of_day,
            player: Player {
                hunger: self.hunger_ticked(turn) as i32,
                hp: self.hp_ticked() as i32,
                ..self.player
            },
            ui: next.ui,
            ..self
        })
    }

    /// Moves the clock on by one turn: storm countdown, turn counter,
    /// time of day, hunger and starvation.
    pub fn pass_time(&mut self)
        requires
            old(self).turn < u32::MAX,
        ensures
            old(self).clock_ticked(*final(self)),
            old(self).wf() ==> final(self).wf(),
            old(self).player.vitals_ok() ==> final(self).player.vitals_ok(),
    {
        if self.storm_turns > 0 {
            self.storm_turns -= 1;
        }
        self.turn += 1;
        self.time_of_day = time_name((self.turn / TIME_SEGMENT_TURNS) % 4);
        if self.player.hunger > 0 {
            let loss = self.difficulty.hunger_loss(self.turn);
            if loss > 0 {
                self.player.hunger = if self.player.hunger < loss {
                    0
                } else {
                    self.player.hunger - loss
                };
                if self.player.hunger == 0 {
                    let _ = self.ui.add_log("You are starving!");
                }
            }
        } else if self.player.hp > 0 {
            self.player.hp -= 1;
        }
    }

    /// Cans of food after one more was found.
    pub open spec fn cans_after_find(self) -> int {
        if self.player.canned_food < i32::MAX {
            self.player.canned_food + 1
        } else {
            self.player.canned_food as int
        }
    }

    /// Whether `next` is `self` after something turned up on the shore,
    /// decided by `kind`, a draw from `0..2`: on a zero a player who is
    /// not at full health rests and gains a hit point; otherwise he finds
    /// a can of food.
    pub open spec fn shore_event_done(self, next: LurhookGame, kind: int) -> bool {
        if kind == 0 && self.player.hp < MAX_HP {
            &&& next.ui.said(self.ui, seq!["You rest on the shore."@])
            &&& next.ui.layout == self.ui.layout
            &&& next == (LurhookGame {
                player: Player { hp: (self.player.hp + 1) as i32, ..self.player },
                ui: next.ui,
                ..self
            })
        } else {
            &&& next.ui.said(self.ui, seq!["You found canned food!"@])
            &&& next.ui.layout == self.ui.layout
            &&& next == (LurhookGame {
                player: Player { canned_food: self.cans_after_find() as i32, ..self.player },
                ui: next.ui,
                ..self
            })
        }
    }

    /// Lets something turn up on the shore, decided by `kind`, a draw
    /// from `0..2`.
    pub fn shore_event(&mut self, kind: i32)
        ensures
            old(self).shore_event_done(*final(self), kind as int),
            old(self).wf() ==> final(self).wf(),
            old(self).player.vitals_ok() ==> final(self).player.vitals_ok(),
    {
        if kind == 0 && self.player.hp < MAX_HP {
            self.player.hp += 1;
            let _ = self.ui.add_log("You rest on the shore.");
        } else {
            if self.player.canned_food < i32::MAX {
                self.player.canned_food += 1;
            }
            let _ = self.ui.add_log("You found canned food!");
        }
    }

    /// Whether `next` is `self` after the weather and the hazards of deep
    /// water were decided by two draws from `0..100`: a storm roll below
    /// the storm chance starts a storm of five turns, and a hazard roll
    /// below the hazard chance puts a jellyfish where the player is.
    pub open spec fn deep_water_event_done(
        self,
        next: LurhookGame,
        storm_roll: int,
        hazard_roll: int,
    ) -> bool {
        let storm = storm_roll < STORM_CHANCE;
        let hazard = hazard_roll < self.difficulty.hazard_percent(self.area);
        &&& next.ui.said(
            self.ui,
            (if storm {
                seq!["A storm reduces visibility!"@]
            } else {
                Seq::empty()
            }) + (if hazard {
                seq!["A jellyfish appears!"@]
            } else {
                Seq::empty()
            }),
        )
        &&& next.ui.layout == self.ui.layout
        &&& next.hazards@ == if hazard {
            self.hazards@.push(Hazard { pos: self.player.pos, turns: HAZARD_DURATION })
        } else {
            self.hazards@
        }
        &&& next == (LurhookGame {
            storm_turns: if storm {
                STORM_TURNS
            } else {
                self.storm_turns
            },
            hazards: next.hazards,
            ui: next.ui,
            ..self
        })
    }

    /// Decides the weather and the hazards of deep water by two draws
    /// from `0..100`.
    pub fn deep_water_event(&mut self, storm_roll: i32, hazard_roll: i32)
        ensures
            old(self).deep_water_event_done(*final(self), storm_roll as int, hazard_roll as int),
            old(self).wf() ==> final(self).wf(),
            final(self).player == old(self).player,
    {
        let ghost start = self.ui;
        if storm_roll < STORM_CHANCE {
            self.storm_turns = STORM_TURNS;
            let _ = self.ui.add_log("A storm reduces visibility!");
        }
        let ghost mid = self.ui;
        if hazard_roll < self.difficulty.hazard_chance(self.area) {
            self.hazards.push(Hazard { pos: self.player.pos, turns: HAZARD_DURATION });
            let _ = self.ui.add_log("A jellyfish appears!");
        }
        proof {
            let first: Seq<Seq<char>> = if storm_roll < STORM_CHANCE {
                seq!["A storm reduces visibility!"@]
            } else {
                Seq::empty()
            };
            let second: Seq<Seq<char>> = if hazard_roll < old(self).difficulty.hazard_percent(
                old(self).area,
            ) {
                seq!["A jellyfish appears!"@]
            } else {
                Seq::empty()
            };
            assert(mid.said(start, first));
            assert(self.ui.said(mid, second));
            crate::angling::lemma_said_twice(start, mid, self.ui, first, second);
        }
    }

    /// Whether `next` is `self` one turn later, where `mid` is the session
    /// after the clock has moved on and `a` and `b` are the turn's random
    /// draws. On land, `a` from `0..100` decides whether something turns
    /// up, and `b` from `0..2` what. In deep water, `a` and `b`, both from
    /// `0..100`, decide storm and hazard. In shallow water nothing
    /// happens.
    pub open spec fn time_advanced(self, next: LurhookGame, mid: LurhookGame, a: int, b: int) -> bool {
        let then = LurhookGame { rng: next.rng, ..mid };
        &&& self.clock_ticked(mid)
        &&& match self.map.tile_at(self.player.pos) {
            TileKind::Land => {
                &&& 0 <= a < 100
                &&& if a < SHORE_CHANCE {
                    0 <= b < 2 && then.shore_event_done(next, b)
                } else {
                    next == then
                }
            },
            TileKind::DeepWater => {
                &&& 0 <= a < 100
                &&& 0 <= b < 100
                &&& then.deep_water_event_done(next, a, b)
            },
            TileKind::ShallowWater => next == then,
        }
    }

    /// Advances the world by one turn: the clock moves on, and then the
    /// tile under the player has its say. On land there is a small chance
    /// of a rest or of a find; in deep water a storm may break and a
    /// jellyfish may appear.
    pub fn advance_time(&mut self)
        requires
            old(self).wf(),
            old(self).turn < u32::MAX,
        ensures
            exists|mid: LurhookGame, a: int, b: int| #[trigger]
                old(self).time_advanced(*final(self), mid, a, b),
            final(self).wf(),
            old(self).player.vitals_ok() ==> final(self).player.vitals_ok(),
    {
        self.pass_time();
        let ghost mid = *self;
        let tile = self.map.tile(self.player.pos);
        match tile {
            TileKind::Land => {
                let find = roll(&mut self.rng, 0, 100);
                if find < SHORE_CHANCE {
                    let kind = roll(&mut self.rng, 0, 2);
                    self.shore_event(kind);
                    assert(old(self).time_advanced(*self, mid, find as int, kind as int));
                } else {
                    assert(old(self).time_advanced(*self, mid, find as int, 0));
                }
            },
            TileKind::DeepWater => {
                let storm_roll = roll(&mut self.rng, 0, 100);
                let hazard_roll = roll(&mut self.rng, 0, 100);
                self.deep_water_event(storm_roll, hazard_roll);
                assert(old(self).time_advanced(*self, mid, storm_roll as int, hazard_roll as int));
            },
            TileKind::ShallowWater => {
                assert(old(self).time_advanced(*self, mid, 0, 0));
            },
        }
    }

    /// The drift of the tide: one cell eastwards for twenty turns, then
    /// one cell westwards for twenty, and so on.
    pub open spec fn drift(self) -> Point {
        if (self.turn / TIDE_TURNS) % 2 == 0 {
            Point { x: 1, y: 0 }
        } else {
            Point { x: -1i32, y: 0 }
        }
    }

    /// The drift of the tide in the current turn.
    pub fn current_drift(&self) -> (d: Point)
        ensures
            d == self.drift(),
    {
        if (self.turn / TIDE_TURNS) % 2 == 0 {
            Point::new(1, 0)
        } else {
            Point::new(-1, 0)
        }
    }

    /// How far the player sees: five cells in deep water, three of them
    /// in a storm, and without limit elsewhere.
    pub open spec fn sight(self) -> int {
        if self.map.tile_at(self.player.pos) == TileKind::DeepWater {
            if self.storm_turns > 0 {
                STORM_SIGHT as int
            } else {
                DEEP_SIGHT as int
            }
        } else {
            i32::MAX as int
        }
    }

    /// How far the player sees.
    pub fn visibility_radius(&self) -> (r: i32)
        requires
            self.map.wf(),
            self.map.in_bounds(self.player.pos),
        ensures
            r == self.sight(),
    {
        match self.map.tile(self.player.pos) {
            TileKind::DeepWater => {
                if self.storm_turns > 0 {
                    STORM_SIGHT
                } else {
                    DEEP_SIGHT
                }
            },
            _ => i32::MAX,
        }
    }

    /// Whether the player sees the cell `pt`: it is within sight on both
    /// axes.
    pub fn is_visible(&self, pt: Point) -> (b: bool)
        requires
            self.map.wf(),
            self.map.in_bounds(self.player.pos),
        ensures
            b == (gap(pt.x as int, self.player.pos.x as int) <= self.sight() && gap(
                pt.y as int,
                self.player.pos.y as int,
            ) <= self.sight()),
    {
        let r = self.visibility_radius() as i64;
        let dx = if pt.x >= self.player.pos.x {
            pt.x as i64 - self.player.pos.x as i64
        } else {
            self.player.pos.x as i64 - pt.x as i64
        };
        let dy = if pt.y >= self.player.pos.y {
            pt.y as i64 - self.player.pos.y as i64
        } else {
            self.player.pos.y as i64 - pt.y as i64
        };
        dx <= r && dy <= r
    }

    /// Whether `next` is `self` after the hazards had their turn: each has
    /// aged by a turn, each one where the player stands has stung him,
    /// taking a hit point while any are left and fraying the line, and
    /// those whose turns have run out are gone.
    pub open spec fn hazards_updated(self, next: LurhookGame) -> bool {
        let n = stings(self.hazards@, self.player.pos, self.hazards@.len() as int);
        &&& next.hazards@ == survivors(self.hazards@, self.hazards@.len() as int)
        &&& next.ui.said(self.ui, sting_messages(felt(self.player.hp as int, n)))
        &&& next.ui.layout == self.ui.layout
        &&& next == (LurhookGame {
            hazards: next.hazards,
            player: Player {
                hp: stung(self.player.hp as int, n) as i32,
                line: frayed_by(self.player.line as int, n) as i32,
                ..self.player
            },
            ui: next.ui,
            ..self
        })
    }

    /// Gives the hazards their turn.
    pub fn update_hazards(&mut self)
        ensures
            old(self).hazards_updated(*final(self)),
            old(self).wf() ==> final(self).wf(),
            old(self).player.vitals_ok() ==> final(self).player.vitals_ok(),
    {
        let n = self.hazards.len();
        let pos = self.player.pos;
        let mut kept: Vec<Hazard> = Vec::new();
        let ghost mut count: int = 0;
        let mut i: usize = 0;
        while i < n
            invariant
                i <= n,
                n == old(self).hazards@.len(),
                pos == old(self).player.pos,
                count == stings(old(self).hazards@, pos, i as int),
                count >= 0,
                kept@ == survivors(old(self).hazards@, i as int),
                self.player.hp == stung(old(self).player.hp as int, count),
                self.player.line == frayed_by(old(self).player.line as int, count),
                self.ui.said(old(self).ui, sting_messages(felt(old(self).player.hp as int, count))),
                self.ui.layout == old(self).ui.layout,
                *self == (LurhookGame {
                    player: Player {
                        hp: stung(old(self).player.hp as int, count) as i32,
                        line: frayed_by(old(self).player.line as int, count) as i32,
                        ..old(self).player
                    },
                    ui: self.ui,
                    ..*old(self)
                }),
                old(self).player.vitals_ok() ==> self.player.vitals_ok(),
            decreases n - i,
        {
            let hazard = self.hazards[i];
            let turns = if hazard.turns > 0 {
                hazard.turns - 1
            } else {
                0
            };
            if hazard.pos == pos {
                let ghost before = self.ui;
                if self.player.hp > 0 {
                    self.player.hp -= HAZARD_DAMAGE;
                    let _ = self.ui.add_log("A jellyfish stings you!");
                    proof {
                        crate::angling::lemma_said_twice(
                            old(self).ui,
                            before,
                            self.ui,
                            sting_messages(felt(old(self).player.hp as int, count)),
                            seq!["A jellyfish stings you!"@],
                        );
                        assert(sting_messages(felt(old(self).player.hp as int, count)) + seq![
                            "A jellyfish stings you!"@,
                        ] =~= sting_messages(felt(old(self).player.hp as int, count + 1)));
                    }
                }
                if self.player.line > 0 {
                    self.player.line = if self.player.line < LINE_DAMAGE {
                        0
                    } else {
                        self.player.line - LINE_DAMAGE
                    };
                }
                proof {
                    assert(frayed_by(old(self).player.line as int, count + 1) == frayed(
                        frayed_by(old(self).player.line as int, count),
                    ));
                    count = count + 1;
                }
            }
            if turns > 0 {
                kept.push(Hazard { pos: hazard.pos, turns });
            }
            i += 1;
        }
        self.hazards = kept;
    }
}

} // verus!
