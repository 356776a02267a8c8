//! What a key press, a click and a whole turn do to a session.

use crate::audio::{capped, MAX_VOLUME};
use crate::common::{clamp, clamp_i64, Point};
use crate::ecology::{after_moves, speed_at, steps_within, update_fish};
use crate::game::{Effect, GameMode, LurhookGame, VIEW_HEIGHT, VIEW_WIDTH};
use crate::keys::{cycle_cast, next_cast_key, InputConfig, Key, KeyPress, MenuKey};
use crate::types::Player;
use crate::ui::{UIContext, UILayout};
use vstd::prelude::*;
use vstd::string::StringExecFns;

verus! {

/// Smallest font scale.
pub const MIN_FONT_SCALE: u8 = 1;

/// Largest font scale.
pub const MAX_FONT_SCALE: u8 = 4;

/// The panel after a key that toggles `panel`: the standard panel if
/// `panel` was up, and `panel` otherwise.
pub open spec fn toggled(layout: UILayout, panel: UILayout) -> UILayout {
    if layout == panel {
        UILayout::Standard
    } else {
        panel
    }
}

/// The scroll position one line back, if a full window of older lines is
/// left.
pub open spec fn scrolled_up(ui: UIContext) -> usize {
    if ui.can_scroll_up() {
        (ui.scroll + 1) as usize
    } else {
        ui.scroll
    }
}

/// The scroll position one line forward.
pub open spec fn scrolled_down(ui: UIContext) -> usize {
    if ui.scroll > 0 {
        (ui.scroll - 1) as usize
    } else {
        0
    }
}

/// The bindings and options after a key of the options menu.
pub open spec fn config_after(cfg: InputConfig, key: MenuKey) -> InputConfig {
    match key {
        MenuKey::Colorblind => InputConfig { colorblind: !cfg.colorblind, ..cfg },
        MenuKey::VolumeUp => if cfg.volume < MAX_VOLUME {
            InputConfig { volume: (cfg.volume + 1) as u8, ..cfg }
        } else {
            cfg
        },
        MenuKey::VolumeDown => if cfg.volume > 0 {
            InputConfig { volume: (cfg.volume - 1) as u8, ..cfg }
        } else {
            cfg
        },
        MenuKey::FontSmaller => if cfg.font_scale > MIN_FONT_SCALE {
            InputConfig { font_scale: (cfg.font_scale - 1) as u8, ..cfg }
        } else {
            cfg
        },
        MenuKey::FontLarger => if cfg.font_scale < MAX_FONT_SCALE {
            InputConfig { font_scale: (cfg.font_scale + 1) as u8, ..cfg }
        } else {
            cfg
        },
        MenuKey::CastKey => InputConfig { cast: next_cast_key(cfg.cast), ..cfg },
        MenuKey::Other => cfg,
    }
}

/// Whether a key of the options menu has the configuration saved: every
/// key that changes it, and the keys for palette and cast key always.
pub open spec fn saves_config(cfg: InputConfig, key: MenuKey) -> bool {
    key == MenuKey::Colorblind || key == MenuKey::CastKey || config_after(cfg, key) != cfg
}

/// The cursor of the inventory panel after a step by `dy` lines in a
/// panel of `total` lines: it moves by one line, and neither off the
/// panel nor beyond what a cursor can hold.
pub open spec fn cursor_after(cursor: int, dy: int, total: int) -> int {
    if dy < 0 && cursor > 0 {
        cursor - 1
    } else if dy > 0 && cursor + 1 < total && cursor < usize::MAX {
        cursor + 1
    } else {
        cursor
    }
}

impl LurhookGame {
    /// The target of a cast after it was moved by `delta`, held within
    /// the map.
    pub open spec fn aimed(self, target: Point, delta: Point) -> Point {
        Point {
            x: clamp(target.x + delta.x, 0, self.map.width - 1) as i32,
            y: clamp(target.y + delta.y, 0, self.map.height - 1) as i32,
        }
    }

    /// Whether `next` is `self` after a key of the options menu: the
    /// configuration is changed and saved, and a new volume goes to the
    /// audio at once.
    pub open spec fn menu_key_done(self, next: LurhookGame, key: MenuKey) -> bool {
        let input = config_after(self.input, key);
        &&& next.effects@ == if saves_config(self.input, key) {
            self.effects@.push(Effect::SaveConfig)
        } else {
            self.effects@
        }
        &&& next.audio.level() == if input.volume != self.input.volume {
            capped(input.volume)
        } else {
            self.audio.level()
        }
        &&& next == (LurhookGame { input, effects: next.effects, audio: next.audio, ..self })
    }

    /// Handles a key of the options menu.
    pub fn menu_key(&mut self, key: MenuKey)
        ensures
            old(self).menu_key_done(*final(self), key),
            old(self).wf() ==> final(self).wf(),
            final(self).player == old(self).player,
    {
        match key {
            MenuKey::Colorblind => {
                self.input.colorblind = !self.input.colorblind;
                self.effects.push(Effect::SaveConfig);
            },
            MenuKey::VolumeUp => {
                if self.input.volume < MAX_VOLUME {
                    self.input.volume += 1;
                    self.effects.push(Effect::SaveConfig);
                    self.audio.set_volume(self.input.volume);
                }
            },
            MenuKey::VolumeDown => {
                if self.input.volume > 0 {
                    self.input.volume -= 1;
                    self.effects.push(Effect::SaveConfig);
                    self.audio.set_volume(self.input.volume);
                }
            },
            MenuKey::FontSmaller => {
                if self.input.font_scale > MIN_FONT_SCALE {
                    self.input.font_scale -= 1;
                    self.effects.push(Effect::SaveConfig);
                }
            },
            MenuKey::FontLarger => {
                if self.input.font_scale < MAX_FONT_SCALE {
                    self.input.font_scale += 1;
                    self.effects.push(Effect::SaveConfig);
                }
            },
            MenuKey::CastKey => {
                self.input.cast = cycle_cast(self.input.cast);
                self.effects.push(Effect::SaveConfig);
            },
            MenuKey::Other => {},
        }
    }

    /// Whether `next` is `self` after a step by `delta`: in the
    /// inventory panel the cursor moves, while aiming the target moves,
    /// and otherwise the player does. No step changes nothing.
    pub open spec fn stepped_by(self, next: LurhookGame, delta: Point) -> bool {
        if delta.x == 0 && delta.y == 0 {
            next == self
        } else if self.inventory_focus {
            next == (LurhookGame {
                inventory_cursor: cursor_after(
                    self.inventory_cursor as int,
                    delta.y as int,
                    (self.player.items@.len() + self.player.inventory@.len()) as int,
                ) as usize,
                ..self
            })
        } else {
            match self.mode {
                GameMode::Aiming { target } => next == (LurhookGame {
                    mode: GameMode::Aiming { target: self.aimed(target, delta) },
                    ..self
                }),
                _ => self.moved_by(next, delta),
            }
        }
    }

    /// Whether `next` is `self` after the key `key` was pressed. The
    /// bindings are tried in a fixed order, and the first that applies in
    /// the current mode and panel decides what happens.
    pub open spec fn pressed(self, next: LurhookGame, key: KeyPress) -> bool {
        if key.cast && self.mode == GameMode::Exploring {
            self.cast_done(next)
        } else if key.cast && self.mode is Aiming {
            self.cast_confirmed(next)
        } else if key.reel && self.mode is Fishing {
            next == (LurhookGame { reeling: true, ..self })
        } else if key.scroll_up {
            next == (LurhookGame { ui: UIContext { scroll: scrolled_up(self.ui), ..self.ui }, ..self })
        } else if key.scroll_down {
            next == (LurhookGame {
                ui: UIContext { scroll: scrolled_down(self.ui), ..self.ui },
                ..self
            })
        } else if key.help {
            next == (LurhookGame {
                ui: UIContext { layout: toggled(self.ui.layout, UILayout::Help), ..self.ui },
                ..self
            })
        } else if key.options {
            next == (LurhookGame {
                ui: UIContext { layout: toggled(self.ui.layout, UILayout::Options), ..self.ui },
                ..self
            })
        } else if self.ui.layout == UILayout::Options {
            self.menu_key_done(next, key.menu)
        } else if key.save {
            &&& next.effects@ == self.effects@.push(Effect::SaveGame)
            &&& next == (LurhookGame { effects: next.effects, ..self })
        } else if key.quit {
            &&& next.effects@ == self.effects@.push(Effect::Quit)
            &&& next == (LurhookGame { effects: next.effects, ..self })
        } else if key.end_run {
            if self.inventory_focus {
                self.activated(next)
            } else if self.mode == GameMode::Exploring {
                self.run_ended(next)
            } else {
                next == self
            }
        } else if key.inventory && self.mode == GameMode::Exploring {
            next == (LurhookGame {
                inventory_focus: !self.inventory_focus,
                inventory_cursor: if !self.inventory_focus {
                    0
                } else {
                    self.inventory_cursor
                },
                ..self
            })
        } else if key.eat && self.inventory_focus {
            self.ate_raw(next)
        } else if key.cook && self.inventory_focus {
            self.cooked(next)
        } else if key.snack && self.inventory_focus {
            self.ate_can(next)
        } else {
            self.stepped_by(next, key.delta)
        }
    }

    /// Whether `next` is `self` after the keyboard was read: reeling
    /// ends, and a pressed key is looked up in the bindings and handled.
    pub open spec fn key_handled(self, next: LurhookGame, key: Option<Key>) -> bool {
        let idle = LurhookGame { reeling: false, ..self };
        match key {
            Some(k) => idle.pressed(next, self.input.seen(k)),
            None => next == idle,
        }
    }

    /// Handles a step by `delta`.
    fn step_by(&mut self, delta: Point)
        requires
            old(self).wf(),
        ensures
            old(self).stepped_by(*final(self), delta),
            final(self).wf(),
            final(self).player == (Player { pos: final(self).player.pos, ..old(self).player }),
    {
        if delta.x != 0 || delta.y != 0 {
            if self.inventory_focus {
                let total = self.player.items.len() as u128 + self.player.inventory.len() as u128;
                if delta.y < 0 && self.inventory_cursor > 0 {
                    self.inventory_cursor -= 1;
                } else if delta.y > 0 && (self.inventory_cursor as u128) + 1 < total
                    && self.inventory_cursor < usize::MAX {
                    self.inventory_cursor += 1;
                }
            } else {
                match self.mode {
                    GameMode::Aiming { target } => {
                        let x = clamp_i64(
                            target.x as i64 + delta.x as i64,
                            0,
                            self.map.width as i64 - 1,
                        );
                        let y = clamp_i64(
                            target.y as i64 + delta.y as i64,
                            0,
                            self.map.height as i64 - 1,
                        );
                        self.mode = GameMode::Aiming { target: Point::new(x as i32, y as i32) };
                    },
                    _ => {
                        self.try_move(delta);
                    },
                }
            }
        }
    }

    /// Reads the keyboard: reeling ends, and a pressed key is looked up in
    /// the bindings and handled.
    pub fn handle_input_key(&mut self, key: Option<Key>)
        requires
            old(self).wf(),
        ensures
            old(self).key_handled(*final(self), key),
            final(self).wf(),
            old(self).player.vitals_ok() ==> final(self).player.vitals_ok(),
    {
        self.reeling = false;
        match key {
            Some(k) => {
                let press = self.input.press(k);
                self.handle_press(press);
            },
            None => {},
        }
    }

    /// Handles a pressed key as the bindings see it, by the first of its
    /// bindings that applies.
    pub fn handle_press(&mut self, key: KeyPress)
        requires
            old(self).wf(),
        ensures
            old(self).pressed(*final(self), key),
            final(self).wf(),
            old(self).player.vitals_ok() ==> final(self).player.vitals_ok(),
    {
        if key.cast {
            match self.mode {
                GameMode::Exploring => {
                    self.cast();
                    return ;
                },
                GameMode::Aiming { .. } => {
                    self.confirm_cast();
                    return ;
                },
                _ => {},
            }
        }
        let fishing = match self.mode {
            GameMode::Fishing { .. } => true,
            _ => false,
        };
        let exploring = match self.mode {
            GameMode::Exploring => true,
            _ => false,
        };
        if key.reel && fishing {
            self.reeling = true;
            return ;
        }
        if key.scroll_up {
            self.ui.scroll_up();
            return ;
        }
        if key.scroll_down {
            self.ui.scroll_down();
            return ;
        }
        if key.help {
            let next = if self.ui.layout() == UILayout::Help {
                UILayout::Standard
            } else {
                UILayout::Help
            };
            self.ui.set_layout(next);
            return ;
        }
        if key.options {
            let next = if self.ui.layout() == UILayout::Options {
                UILayout::Standard
            } else {
                UILayout::Options
            };
            self.ui.set_layout(next);
            return ;
        }
        if self.ui.layout() == UILayout::Options {
            self.menu_key(key.menu);
            return ;
        }
        if key.save {
            self.effects.push(Effect::SaveGame);
            return ;
        }
        if key.quit {
            self.effects.push(Effect::Quit);
            return ;
        }
        if key.end_run {
            if self.inventory_focus {
                self.activate_selected_item();
            } else if exploring {
                self.end_run();
            }
            return ;
        }
        if key.inventory && exploring {
            self.inventory_focus = !self.inventory_focus;
            if self.inventory_focus {
                self.inventory_cursor = 0;
            }
            return ;
        }
        if key.eat && self.inventory_focus {
            self.eat_fish();
            return ;
        }
        if key.cook && self.inventory_focus {
            self.cook_fish();
            return ;
        }
        if key.snack && self.inventory_focus {
            self.eat_canned_food();
            return ;
        }
        self.step_by(key.delta);
    }

    /// Whether `next` is `self` after the host has reported how saving the
    /// snapshot went: `failure` is `None` after a success and the reason
    /// otherwise.
    pub open spec fn save_reported(self, next: LurhookGame, failure: Option<Seq<char>>) -> bool {
        &&& next.ui.said(
            self.ui,
            seq![
                match failure {
                    None => "Game saved."@,
                    Some(reason) => "Save failed: "@ + reason,
                },
            ],
        )
        &&& next.ui.layout == self.ui.layout
        &&& next == (LurhookGame { ui: next.ui, ..self })
    }

    /// Notes in the log how saving the snapshot went.
    pub fn report_save(&mut self, failure: Option<&str>)
        ensures
            old(self).save_reported(
                *final(self),
                match failure {
                    None => None,
                    Some(reason) => Some(reason@),
                },
            ),
            old(self).wf() ==> final(self).wf(),
    {
        match failure {
            None => {
                let _ = self.ui.add_log("Game saved.");
            },
            Some(reason) => {
                let msg = String::from_str("Save failed: ").concat(reason);
                let _ = self.ui.add_log(msg.as_str());
            },
        }
    }

    /// The cell under the mouse when it points at column `mx` and row
    /// `my` of the screen.
    pub open spec fn pointed_at(self, mx: int, my: int) -> Point {
        Point { x: (self.camera_at().0 + mx) as i32, y: (self.camera_at().1 + my) as i32 }
    }

    /// Whether `next` is `self` after a click at column `mx` and row `my`
    /// of the screen. A click on the map puts the player there while
    /// exploring, and the target while aiming.
    pub open spec fn clicked(self, next: LurhookGame, mx: int, my: int) -> bool {
        let cell = self.pointed_at(mx, my);
        if mx < VIEW_WIDTH && my < VIEW_HEIGHT {
            match self.mode {
                GameMode::Exploring => next == (LurhookGame {
                    player: Player { pos: cell, ..self.player },
                    depth: self.map.depth_at(cell) as i32,
                    ..self
                }),
                GameMode::Aiming { target } => next == (LurhookGame {
                    mode: GameMode::Aiming { target: cell },
                    ..self
                }),
                _ => next == self,
            }
        } else {
            next == self
        }
    }

    /// Handles a click at column `mx` and row `my` of the screen.
    pub fn handle_click(&mut self, mx: i32, my: i32)
        requires
            old(self).wf(),
            mx >= 0,
            my >= 0,
        ensures
            old(self).clicked(*final(self), mx as int, my as int),
            final(self).wf(),
            final(self).player == (Player { pos: final(self).player.pos, ..old(self).player }),
    {
        if mx < VIEW_WIDTH && my < VIEW_HEIGHT {
            let (cam_x, cam_y) = self.camera();
            let cell = Point::new(cam_x + mx, cam_y + my);
            match self.mode {
                GameMode::Exploring => {
                    self.player.pos = cell;
                    self.depth = self.map.depth(cell);
                },
                GameMode::Aiming { .. } => {
                    self.mode = GameMode::Aiming { target: cell };
                },
                _ => {},
            }
        }
    }

    /// Whether `next` is `self` after mouse and keyboard were read:
    /// reeling ends, then a click is handled, and then a pressed key.
    pub open spec fn input_handled(
        self,
        next: LurhookGame,
        mid: LurhookGame,
        key: Option<Key>,
        click: Option<(i32, i32)>,
    ) -> bool {
        let idle = LurhookGame { reeling: false, ..self };
        &&& match click {
            Some((mx, my)) => idle.clicked(mid, mx as int, my as int),
            None => mid == idle,
        }
        &&& match key {
            Some(k) => mid.key_handled(next, key),
            None => next == mid,
        }
    }

    /// Reads mouse and keyboard.
    pub fn handle_input(&mut self, key: Option<Key>, click: Option<(i32, i32)>)
        requires
            old(self).wf(),
            click matches Some((mx, my)) ==> mx >= 0 && my >= 0,
        ensures
            exists|mid: LurhookGame| #[trigger]
                old(self).input_handled(*final(self), mid, key, click),
            final(self).wf(),
            old(self).player.vitals_ok() ==> final(self).player.vitals_ok(),
    {
        self.reeling = false;
        match click {
            Some((mx, my)) => {
                self.handle_click(mx, my);
            },
            None => {},
        }
        let ghost mid = *self;
        if key.is_some() {
            self.handle_input_key(key);
        }
        assert(old(self).input_handled(*self, mid, key, click));
    }

    /// Whether `next` is `self` after the fish have moved with the tide.
    pub open spec fn fish_moved(self, next: LurhookGame) -> bool {
        &&& exists|steps: Seq<(int, int)>|
            steps_within(steps, self.fishes@.len() as int, speed_at(self.time_of_day@))
                && next.fishes@ == #[trigger] after_moves(
                self.map,
                self.fishes@,
                steps,
                speed_at(self.time_of_day@),
                self.drift(),
                self.fishes@.len() as int,
            )
        &&& next == (LurhookGame { fishes: next.fishes, rng: next.rng, ..self })
    }

    /// Whether `next` is `self` after a turn was played on the given
    /// input, where `a` is the session after the input was handled, `b`
    /// after the world has advanced and `c` after the mode has had its
    /// turn. Without input nothing but the input handling happens, and a
    /// session whose run has ended does not advance either. Otherwise the world advances,
    /// the fish move while the player explores or the fishing goes on
    /// while he fishes, and at last the hazards have their turn.
    pub open spec fn turn_played(
        self,
        next: LurhookGame,
        a: LurhookGame,
        b: LurhookGame,
        c: LurhookGame,
        key: Option<Key>,
        click: Option<(i32, i32)>,
    ) -> bool {
        &&& exists|mid: LurhookGame| #[trigger] self.input_handled(a, mid, key, click)
        &&& if (key.is_none() && click.is_none()) || a.mode is End {
            next == a
        } else {
            &&& exists|mid: LurhookGame, x: int, y: int| #[trigger] a.time_advanced(b, mid, x, y)
            &&& match b.mode {
                GameMode::Exploring => b.fish_moved(c),
                GameMode::Fishing { .. } => b.fishing_updated(c),
                _ => c == b,
            }
            &&& c.hazards_updated(next)
        }
    }

    /// Plays one turn: reads mouse and keyboard and, if there was any
    /// input and the run has not ended, lets the world advance, the fish
    /// or the fishing have their turn, and then the hazards.
    pub fn tick(&mut self, key: Option<Key>, click: Option<(i32, i32)>)
        requires
            old(self).wf(),
            old(self).turn < u32::MAX,
            click matches Some((mx, my)) ==> mx >= 0 && my >= 0,
        ensures
            exists|a: LurhookGame, b: LurhookGame, c: LurhookGame| #[trigger]
                old(self).turn_played(*final(self), a, b, c, key, click),
            final(self).wf(),
            old(self).player.vitals_ok() ==> final(self).player.vitals_ok(),
    {
        self.handle_input(key, click);
        let ghost a = *self;
        let input = key.is_some() || click.is_some();
        let ended = match self.mode {
            GameMode::End { .. } => true,
            _ => false,
        };
        if !input || ended {
            assert(old(self).turn_played(*self, a, a, a, key, click));
            return ;
        }
        self.advance_time();
        let ghost b = *self;
        match self.mode {
            GameMode::Exploring => {
                let drift = self.current_drift();
                let _ = update_fish(
                    &self.map,
                    self.fishes.as_mut_slice(),
                    &mut self.rng,
                    self.time_of_day,
                    drift,
                );
            },
            GameMode::Fishing { .. } => {
                self.update_fishing();
            },
            _ => {},
        }
        let ghost c = *self;
        self.update_hazards();
        assert(old(self).turn_played(*self, a, b, c, key, click));
    }
}

} // verus!
