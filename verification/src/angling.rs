//! The fishing mode of a session: waiting for a bite, the fight with the
//! hooked fish, and what a catch leads to.

use crate::audio::Sound;
use crate::common::Point;
use crate::data::{FightStyle, UNIT};
use crate::ecology::{spawn_fish_population_with, spawned};
use crate::fishing::{bite_chance, bite_probability, is_bite, MeterState, TensionMeter};
use crate::game::{
    area_after, breaking_point, centre, frayed, unlock_message, Effect, GameMode, LurhookGame,
    DEEP_SEA_CAPTURES, LINE_DAMAGE, OFFSHORE_CAPTURES, POPULATION,
};
use crate::mapgen::{generate, terrain_depths, terrain_tiles, NoiseField, TileKind};
use crate::random::roll;
use crate::types::{Area, Player};
use crate::ui::{UIContext, UILayout};
use bracket_lib::prelude::RandomNumberGenerator;
use vstd::prelude::*;

verus! {

/// Messages added to a log one batch after the other are added together.
pub proof fn lemma_said_twice(
    first: UIContext,
    second: UIContext,
    third: UIContext,
    a: Seq<Seq<char>>,
    b: Seq<Seq<char>>,
)
    requires
        second.said(first, a),
        third.said(second, b),
    ensures
        third.said(first, a + b),
{
    assert forall|k: int| 0 <= k < (a + b).len() implies (#[trigger] third.logs@[first.logs@.len()
        + k])@ == (a + b)[k] by {
        if k < a.len() {
            assert(third.logs@[first.logs@.len() + k] == second.logs@[first.logs@.len() + k]);
        } else {
            assert(third.logs@[second.logs@.len() + (k - a.len())]@ == b[k - a.len()]);
        }
    }
}

impl LurhookGame {
    /// The chart of an area ahead.
    pub open spec fn chart_of(self, area: Area) -> NoiseField {
        if area == Area::Offshore {
            self.charts.offshore
        } else {
            self.charts.deep_sea
        }
    }

    /// Whether `next` is `self` after the player has entered `area`: the
    /// seed has gone up by one, the map is the one the area's chart gives,
    /// a new population is spawned on it with draws that the new seed
    /// decides, and the player stands in its middle.
    pub open spec fn entered(self, next: LurhookGame, area: Area) -> bool {
        let chart = self.chart_of(area);
        &&& next.map.width == chart.width
        &&& next.map.height == chart.height
        &&& next.map.tiles@ == terrain_tiles(chart.samples@)
        &&& next.map.depths@ == terrain_depths(chart.samples@)
        &&& spawned(next.map, self.fish_types@, POPULATION as int, next.fishes@)
        &&& next.ui.said(self.ui, seq![unlock_message(area)])
        &&& next.ui.layout == self.ui.layout
        &&& next == (LurhookGame {
            area,
            seed: (self.seed + 1) as u64,
            map: next.map,
            fishes: next.fishes,
            player: Player { pos: centre(next.map), ..self.player },
            ui: next.ui,
            ..self
        })
    }

    /// Whether `next` is `self` after the captures were checked against
    /// the thresholds of the areas: in the next area if its threshold is
    /// reached, and unchanged otherwise.
    pub open spec fn area_checked(self, next: LurhookGame) -> bool {
        let area = area_after(self.area, self.codex.total() as int);
        if area == self.area {
            next == self
        } else {
            self.entered(next, area)
        }
    }

    /// Moves the session into an area ahead.
    fn enter(&mut self, area: Area)
        requires
            old(self).wf(),
            area != old(self).area,
            area == area_after(old(self).area, old(self).codex.total() as int),
        ensures
            old(self).entered(*final(self), area),
            final(self).wf(),
    {
        proof {
            crate::game::lemma_terrain_water(self.chart_of(area).samples@);
            assert(self.chart_of(area).width * self.chart_of(area).height <= 19_200)
                by (nonlinear_arith)
                requires
                    self.chart_of(area).width <= 160,
                    self.chart_of(area).height <= 120,
            ;
        }
        let generated = match area {
            Area::Offshore => generate(&self.charts.offshore),
            _ => generate(&self.charts.deep_sea),
        };
        if let Ok(map) = generated {
            self.map = map;
        }
        self.area = area;
        self.seed = self.seed + 1;
        let mut spawner = RandomNumberGenerator::seeded(self.seed);
        if let Ok(fishes) = spawn_fish_population_with(
            &self.map,
            self.fish_types.as_slice(),
            POPULATION,
            &mut spawner,
        ) {
            self.fishes = fishes;
        }
        self.player.pos = Point::new((self.map.width / 2) as i32, (self.map.height / 2) as i32);
        let _ = self.ui.add_log(
            match area {
                Area::Offshore => "Unlocked offshore area!",
                _ => "Unlocked deep sea!",
            },
        );
    }

    /// Opens the next area once enough fish are in the codex: the offshore
    /// area after three captures, the deep sea after six.
    pub fn check_area_upgrade(&mut self)
        requires
            old(self).wf(),
        ensures
            old(self).area_checked(*final(self)),
            final(self).wf(),
    {
        let total = self.codex.total_captures();
        match self.area {
            Area::Coast => {
                if total >= OFFSHORE_CAPTURES {
                    self.enter(Area::Offshore);
                }
            },
            Area::Offshore => {
                if total >= DEEP_SEA_CAPTURES {
                    self.enter(Area::DeepSea);
                }
            },
            Area::DeepSea => {},
        }
    }

    /// Whether `next` is `self` after a turn of waiting for the cast to
    /// land: the countdown has gone down by one, and the animation of the
    /// cast has moved one cell on, or is over.
    pub open spec fn waited(self, next: LurhookGame, wait: u8) -> bool {
        let animated = match self.cast_path {
            Some(path) => self.cast_step < path@.len(),
            None => false,
        };
        next == (LurhookGame {
            mode: GameMode::Fishing { wait: (wait - 1) as u8 },
            cast_path: if animated {
                self.cast_path
            } else {
                None
            },
            cast_step: if animated {
                (self.cast_step + 1) as usize
            } else {
                self.cast_step
            },
            ..self
        })
    }

    /// The water that decides the bite: that under the first fish, and
    /// shallow water where no fish is left.
    pub open spec fn bite_tile(self) -> TileKind {
        if self.fishes@.len() > 0 {
            self.map.tile_at(self.fishes@[0].position)
        } else {
            TileKind::ShallowWater
        }
    }

    /// The meter for a fresh bite: that of the first fish, or of a
    /// stand-in where no fish is left, with the breaking point that the
    /// equipped rod gives.
    pub open spec fn hooked_meter(self) -> TensionMeter {
        let max_tension = breaking_point(self.player.tension_bonus as int) as i32;
        if self.fishes@.len() > 0 {
            TensionMeter {
                tension: 0,
                max_tension,
                duration: 5,
                strength: self.fishes@[0].kind.strength,
                style: self.fishes@[0].kind.fight_style,
                reel_factor: self.player.reel_factor,
            }
        } else {
            TensionMeter {
                tension: 0,
                max_tension,
                duration: 5,
                strength: 5,
                style: FightStyle::Aggressive,
                reel_factor: UNIT,
            }
        }
    }

    /// Whether `next` is `self` after the bite was decided by `roll`, a
    /// draw from `0..1000`: a roll below the bite chance hooks a fish and
    /// starts the fight, any other ends the attempt.
    pub open spec fn bite_decided(self, next: LurhookGame, roll: int) -> bool {
        if roll < bite_chance(self.bite_tile(), self.player.bait_bonus as int) {
            &&& next.ui.said(self.ui, seq!["Hooked a fish!"@])
            &&& next.ui.layout == self.ui.layout
            &&& next.effects@ == self.effects@.push(Effect::Play(Sound::Hit))
            &&& next == (LurhookGame {
                ui: next.ui,
                effects: next.effects,
                meter: Some(self.hooked_meter()),
                ..self
            })
        } else {
            &&& next.ui.said(self.ui, seq!["The fish got away..."@])
            &&& next.ui.layout == UILayout::Standard
            &&& next == (LurhookGame { ui: next.ui, mode: GameMode::Exploring, ..self })
        }
    }

    /// Decides the bite by `roll`, a draw from `0..1000`.
    pub fn resolve_bite(&mut self, roll: i32)
        requires
            old(self).wf(),
        ensures
            old(self).bite_decided(*final(self), roll as int),
            final(self).wf(),
    {
        let tile = if self.fishes.len() > 0 {
            self.map.tile(self.fishes[0].position)
        } else {
            TileKind::ShallowWater
        };
        let chance = bite_probability(tile, self.player.bait_bonus);
        if is_bite(roll, chance) {
            let _ = self.ui.add_log("Hooked a fish!");
            self.effects.push(Effect::Play(Sound::Hit));
            let mut meter = if self.fishes.len() > 0 {
                TensionMeter::new(
                    self.fishes[0].kind.strength,
                    self.fishes[0].kind.fight_style,
                    self.player.reel_factor,
                )
            } else {
                TensionMeter::default()
            };
            let limit = meter.max_tension as i64 + self.player.tension_bonus as i64;
            meter.max_tension = if limit < 0 {
                0
            } else if limit > i32::MAX as i64 {
                i32::MAX
            } else {
                limit as i32
            };
            self.meter = Some(meter);
        } else {
            let _ = self.ui.add_log("The fish got away...");
            self.mode = GameMode::Exploring;
            self.ui.set_layout(UILayout::Standard);
        }
    }

    /// Whether `next` is `self` after the line has snapped: the line has
    /// lost integrity, the attempt is over, and the log says so.
    pub open spec fn snapped(self, next: LurhookGame) -> bool {
        let line = frayed(self.player.line as int);
        &&& next.ui.said(
            self.ui,
            if self.player.line > 0 && line == 0 {
                seq!["Line snapped!"@, "Your line is ruined."@]
            } else {
                seq!["Line snapped!"@]
            },
        )
        &&& next.ui.layout == UILayout::Standard
        &&& next.effects@ == self.effects@.push(Effect::Play(Sound::LineSnap))
        &&& next == (LurhookGame {
            ui: next.ui,
            effects: next.effects,
            player: Player { line: line as i32, ..self.player },
            mode: GameMode::Exploring,
            ..self
        })
    }

    /// Ends the attempt with a snapped line.
    fn snap_line(&mut self)
        ensures
            old(self).snapped(*final(self)),
    {
        let _ = self.ui.add_log("Line snapped!");
        self.effects.push(Effect::Play(Sound::LineSnap));
        let ghost mid = self.ui;
        if self.player.line > 0 {
            self.player.line = if self.player.line < LINE_DAMAGE {
                0
            } else {
                self.player.line - LINE_DAMAGE
            };
            if self.player.line == 0 {
                let _ = self.ui.add_log("Your line is ruined.");
                proof {
                    lemma_said_twice(
                        old(self).ui,
                        mid,
                        self.ui,
                        seq!["Line snapped!"@],
                        seq!["Your line is ruined."@],
                    );
                    assert(seq!["Line snapped!"@] + seq!["Your line is ruined."@] =~= seq![
                        "Line snapped!"@,
                        "Your line is ruined."@,
                    ]);
                }
            }
        }
        self.mode = GameMode::Exploring;
        self.ui.set_layout(UILayout::Standard);
    }

    /// Whether `next` is `self` after the hooked fish was landed. The
    /// newest fish of the population goes into the inventory and, if the
    /// codex has room, into the codex; where that opens the next area, the
    /// session moves there. Without any fish left there is nothing to land.
    pub open spec fn landed(self, next: LurhookGame) -> bool {
        if self.fishes@.len() == 0 {
            &&& next.fishes@.len() == 0
            &&& next == (LurhookGame {
                fishes: next.fishes,
                mode: GameMode::Exploring,
                ui: UIContext { layout: UILayout::Standard, ..self.ui },
                ..self
            })
        } else {
            let fish = self.fishes@.last();
            let room = self.codex.total() < u32::MAX;
            let area = area_after(self.area, next.codex.total() as int);
            &&& if room {
                next.codex.recorded(self.codex, fish.kind.id@)
            } else {
                next.codex == self.codex
            }
            &&& next.player.inventory@ == self.player.inventory@.push(fish.kind)
            &&& next.effects@ == self.effects@ + (if room {
                seq![Effect::SaveCodex, Effect::Play(Sound::Catch)]
            } else {
                seq![Effect::Play(Sound::Catch)]
            })
            &&& next.ui.said(
                self.ui,
                if area != self.area {
                    seq!["Caught a fish!"@, unlock_message(area)]
                } else {
                    seq!["Caught a fish!"@]
                },
            )
            &&& next.ui.layout == UILayout::Standard
            &&& if area != self.area {
                let chart = self.chart_of(area);
                &&& next.map.width == chart.width
                &&& next.map.height == chart.height
                &&& next.map.tiles@ == terrain_tiles(chart.samples@)
                &&& next.map.depths@ == terrain_depths(chart.samples@)
                &&& spawned(next.map, self.fish_types@, POPULATION as int, next.fishes@)
                &&& next.seed == self.seed + 1
                &&& next.player.pos == centre(next.map)
            } else {
                &&& next.map == self.map
                &&& next.fishes@ == self.fishes@.drop_last()
                &&& next.seed == self.seed
                &&& next.player.pos == self.player.pos
            }
            &&& next == (LurhookGame {
                codex: next.codex,
                player: Player {
                    inventory: next.player.inventory,
                    pos: next.player.pos,
                    ..self.player
                },
                effects: next.effects,
                ui: next.ui,
                mode: GameMode::Exploring,
                map: next.map,
                fishes: next.fishes,
                seed: next.seed,
                area,
                ..self
            })
        }
    }

    /// Lands the hooked fish.
    fn land_fish(&mut self)
        requires
            old(self).wf(),
        ensures
            old(self).landed(*final(self)),
            final(self).wf(),
    {
        match self.fishes.pop() {
            Some(fish) => {
                assert(self.fishes@ =~= old(self).fishes@.drop_last());
                let recorded = self.codex.total_captures() < u32::MAX;
                if recorded {
                    self.codex.record_capture(fish.kind.id.as_str());
                    self.effects.push(Effect::SaveCodex);
                }
                self.player.inventory.push(fish.kind);
                let _ = self.ui.add_log("Caught a fish!");
                self.effects.push(Effect::Play(Sound::Catch));
                assert(self.effects@ =~= old(self).effects@ + (if recorded {
                    seq![Effect::SaveCodex, Effect::Play(Sound::Catch)]
                } else {
                    seq![Effect::Play(Sound::Catch)]
                }));
                let ghost mid = *self;
                self.check_area_upgrade();
                proof {
                    let area = area_after(mid.area, mid.codex.total() as int);
                    if area != mid.area {
                        lemma_said_twice(
                            old(self).ui,
                            mid.ui,
                            self.ui,
                            seq!["Caught a fish!"@],
                            seq![unlock_message(area)],
                        );
                        assert(seq!["Caught a fish!"@] + seq![unlock_message(area)] =~= seq![
                            "Caught a fish!"@,
                            unlock_message(area),
                        ]);
                    }
                }
            },
            None => {},
        }
        self.mode = GameMode::Exploring;
        self.ui.set_layout(UILayout::Standard);
    }

    /// Whether `next` is `self` after a turn of the fight in which the
    /// meter `meter` was played.
    pub open spec fn fought(self, next: LurhookGame, meter: TensionMeter) -> bool {
        match meter.outcome(self.reeling) {
            MeterState::Ongoing => next == (LurhookGame {
                meter: Some(meter.next(self.reeling)),
                ..self
            }),
            MeterState::Success => (LurhookGame { meter: None, ..self }).landed(next),
            MeterState::Broken => (LurhookGame { meter: None, ..self }).snapped(next),
            MeterState::Lost => {
                &&& next.ui.said(self.ui, seq!["The fish escaped!"@])
                &&& next.ui.layout == UILayout::Standard
                &&& next == (LurhookGame {
                    meter: None,
                    ui: next.ui,
                    mode: GameMode::Exploring,
                    ..self
                })
            },
        }
    }

    /// Whether `next` is `self` after a turn in fishing mode, up to the
    /// random draw that decides a bite.
    pub open spec fn fishing_updated(self, next: LurhookGame) -> bool {
        match self.mode {
            GameMode::Fishing { wait } => if wait > 0 {
                self.waited(next, wait)
            } else {
                match self.meter {
                    None => exists|roll: int|
                        0 <= roll < 1000 && #[trigger] (LurhookGame {
                            rng: next.rng,
                            ..self
                        }).bite_decided(next, roll),
                    Some(meter) => self.fought(next, meter),
                }
            },
            _ => next == self,
        }
    }

    /// Plays a turn in fishing mode. While the cast is in the air, the
    /// countdown runs. Then a draw against the bite chance decides whether
    /// a fish is hooked, and from then on each turn is a turn of the
    /// fight: it goes on, or the fish is landed, or the line snaps, or the
    /// fish escapes. In any other mode nothing happens.
    pub fn update_fishing(&mut self)
        requires
            old(self).wf(),
        ensures
            old(self).fishing_updated(*final(self)),
            final(self).wf(),
            old(self).player.vitals_ok() ==> final(self).player.vitals_ok(),
    {
        let wait = match self.mode {
            GameMode::Fishing { wait } => wait,
            _ => {
                return ;
            },
        };
        if wait > 0 {
            let animated = match &self.cast_path {
                Some(path) => self.cast_step < path.len(),
                None => false,
            };
            if animated {
                self.cast_step += 1;
            } else {
                self.cast_path = None;
            }
            self.mode = GameMode::Fishing { wait: wait - 1 };
            return ;
        }
        let reel = self.reeling;
        let state = match &mut self.meter {
            Some(meter) => meter.update(reel),
            None => {
                let draw = roll(&mut self.rng, 0, 1000);
                let ghost start = *self;
                self.resolve_bite(draw);
                assert(start == (LurhookGame { rng: self.rng, ..*old(self) }));
                return ;
            },
        };
        match state {
            MeterState::Ongoing => {},
            MeterState::Success => {
                self.meter = None;
                self.land_fish();
            },
            MeterState::Broken => {
                self.meter = None;
                self.snap_line();
            },
            MeterState::Lost => {
                self.meter = None;
                let _ = self.ui.add_log("The fish escaped!");
                self.mode = GameMode::Exploring;
                self.ui.set_layout(UILayout::Standard);
            },
        }
    }
}

} // verus!
