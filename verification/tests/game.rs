use bracket_lib::prelude::{FastNoise, NoiseType};
use lurhook::app::{AppAction, AppState, LurhookApp};
use lurhook::codex::Codex;
use lurhook::common::{GameError, Point};
use lurhook::data::{FightStyle, FishType, ItemKind, ItemType};
use lurhook::fishing::TensionMeter;
use lurhook::game::{
    Assets, Charts, Difficulty, Effect, GameMode, LurhookGame, LINE_DAMAGE, TIME_SEGMENT_TURNS,
    VIEW_HEIGHT, VIEW_WIDTH,
};
use lurhook::keys::{InputConfig, Key, KeyPress, MenuKey};
use lurhook::line::line_path;
use lurhook::mapgen::{NoiseField, TileKind};
use lurhook::types::{Area, Hazard, MAX_HP, MAX_HUNGER};
use lurhook::ui::UILayout;

fn sample_field(seed: u64, width: u32, height: u32) -> NoiseField {
    let mut noise = FastNoise::seeded(seed);
    noise.set_noise_type(NoiseType::Perlin);
    noise.set_frequency(0.08);
    let mut samples = Vec::new();
    for y in 0..height {
        for x in 0..width {
            let v = noise.get_noise(x as f32, y as f32);
            samples.push((v * 10_000.0).floor() as i32);
        }
    }
    NoiseField { seed, width, height, samples }
}

fn species(id: &str, rarity: u32, strength: i32, min_depth: i32, max_depth: i32) -> FishType {
    FishType {
        id: id.into(),
        name: id.into(),
        rarity,
        strength,
        min_depth,
        max_depth,
        fight_style: FightStyle::Aggressive,
        legendary: false,
    }
}

fn sample_types() -> Vec<FishType> {
    vec![
        species("MINNOW", 1000, 2, 0, 15),
        species("BASS", 800, 4, 5, 40),
        species("EEL", 500, 5, 10, 60),
        species("TUNA", 200, 8, 20, 100),
    ]
}

fn item(id: &str, kind: ItemKind, tension_bonus: i32, reel_factor: i32, bite_bonus: i32) -> ItemType {
    ItemType { id: id.into(), name: id.into(), kind, tension_bonus, reel_factor, bite_bonus }
}

fn sample_items() -> Vec<ItemType> {
    vec![
        item("CAN", ItemKind::Food, 0, 1000, 0),
        item("ROD", ItemKind::Rod, 0, 1000, 0),
        item("LURE", ItemKind::Lure, 0, 1000, 200),
        item("REEL", ItemKind::Reel, 0, 1000, 0),
    ]
}

fn assets_for(seed: u64, area: Area) -> Assets {
    let (w, h) = area.size();
    let ahead: Vec<Area> = match area {
        Area::Coast => vec![Area::Offshore, Area::DeepSea],
        Area::Offshore => vec![Area::DeepSea],
        Area::DeepSea => vec![],
    };
    let mut offshore = NoiseField { seed: 0, width: 0, height: 0, samples: Vec::new() };
    let mut deep_sea = NoiseField { seed: 0, width: 0, height: 0, samples: Vec::new() };
    for (k, a) in ahead.iter().enumerate() {
        let (aw, ah) = a.size();
        let field = sample_field(seed + 1 + k as u64, aw, ah);
        if *a == Area::Offshore {
            offshore = field;
        } else {
            deep_sea = field;
        }
    }
    Assets {
        fish_types: sample_types(),
        items: sample_items(),
        terrain: sample_field(seed, w, h),
        charts: Charts { offshore, deep_sea },
        input: InputConfig::default(),
        codex: Codex::new(),
    }
}

fn game_with(seed: u64, difficulty: Difficulty) -> LurhookGame {
    LurhookGame::new_with_difficulty(seed, difficulty, assets_for(seed, Area::Coast)).expect("game")
}

fn default_game() -> LurhookGame {
    LurhookGame::new(0, assets_for(0, Area::Coast)).expect("game")
}

fn no_key() -> KeyPress {
    KeyPress {
        cast: false,
        reel: false,
        scroll_up: false,
        scroll_down: false,
        help: false,
        options: false,
        menu: MenuKey::Other,
        save: false,
        quit: false,
        end_run: false,
        inventory: false,
        eat: false,
        cook: false,
        snack: false,
        delta: Point::new(0, 0),
    }
}

fn arrow(dx: i32, dy: i32) -> KeyPress {
    KeyPress { delta: Point::new(dx, dy), ..no_key() }
}

fn fill(game: &mut LurhookGame, tile: TileKind) {
    for t in game.map.tiles.iter_mut() {
        *t = tile;
    }
}

fn last_log(game: &LurhookGame) -> &str {
    game.ui.logs.last().map(|s| s.as_str()).unwrap_or("")
}

#[test]
fn default_player_position() {
    let game = default_game();
    assert_eq!(
        game.player.pos,
        Point::new(game.map.width as i32 / 2, game.map.height as i32 / 2)
    );
    assert!(game.player.inventory.is_empty());
    assert_eq!(game.player.hp, MAX_HP);
    assert_eq!(game.player.line, 100);
    assert_eq!(game.player.bait_bonus, 200);
    assert_eq!(game.player.tension_bonus, 0);
    assert_eq!(game.player.reel_factor, 1000);
    assert_eq!(game.map.width, 80);
    assert_eq!(game.map.height, 50);
    assert_eq!(game.fishes.len(), 5);
    let fish = &game.fishes[0];
    let tile = game.map.tiles[game.map.idx(fish.position)];
    assert!(matches!(tile, TileKind::ShallowWater | TileKind::DeepWater));
}

#[test]
fn new_game_equips_first_gear_of_each_kind() {
    let mut assets = assets_for(0, Area::Coast);
    assets.items.push(item("ROD2", ItemKind::Rod, 25, 1000, 0));
    assets.items.insert(0, item("REEL0", ItemKind::Reel, 0, 1500, 0));
    let game = LurhookGame::new(0, assets).expect("game");
    assert_eq!(game.player.rod.as_ref().unwrap().id, "ROD");
    assert_eq!(game.player.reel.as_ref().unwrap().id, "REEL0");
    assert_eq!(game.player.lure.as_ref().unwrap().id, "LURE");
    assert_eq!(game.player.reel_factor, 1500);
    let left: Vec<&str> = game.player.items.iter().map(|i| i.id.as_str()).collect();
    assert_eq!(left, vec!["CAN", "REEL", "ROD2"]);
    assert_eq!(game.ui.layout(), UILayout::Help);
    assert_eq!(game.time_of_day, "Dawn");
    assert_eq!(game.turn, 0);
    assert_eq!(game.mode(), GameMode::Exploring);
    assert_eq!(game.audio.volume(), 5);
    assert!(game.effects.is_empty());
    assert_eq!(game.depth, game.map.depth(game.player.pos));
}

#[test]
fn new_game_without_gear_uses_neutral_values() {
    let mut assets = assets_for(0, Area::Coast);
    assets.items = vec![item("CAN", ItemKind::Food, 0, 1000, 0)];
    let game = LurhookGame::new(0, assets).expect("game");
    assert!(game.player.rod.is_none() && game.player.reel.is_none() && game.player.lure.is_none());
    assert_eq!(game.player.bait_bonus, 0);
    assert_eq!(game.player.tension_bonus, 0);
    assert_eq!(game.player.reel_factor, 1000);
    assert_eq!(game.player.items.len(), 1);
}

#[test]
fn new_game_fails_without_reference_data_or_water() {
    let mut no_fish = assets_for(0, Area::Coast);
    no_fish.fish_types.clear();
    assert!(matches!(LurhookGame::new(0, no_fish), Err(GameError::InvalidOperation)));
    let mut no_items = assets_for(0, Area::Coast);
    no_items.items.clear();
    assert!(matches!(LurhookGame::new(0, no_items), Err(GameError::InvalidOperation)));
    let mut dry = assets_for(0, Area::Coast);
    for s in dry.terrain.samples.iter_mut() {
        *s = 100;
    }
    assert!(matches!(LurhookGame::new(0, dry), Err(GameError::InvalidOperation)));
}

#[test]
fn movement_clamped_to_bounds() {
    let mut game = default_game();
    game.player.pos = Point::new(0, 0);
    game.try_move(Point::new(-1, -1));
    assert_eq!(game.player.pos, Point::new(0, 0));

    game.player.pos = Point::new(game.map.width as i32 - 1, game.map.height as i32 - 1);
    game.try_move(Point::new(1, 1));
    assert_eq!(
        game.player.pos,
        Point::new(game.map.width as i32 - 1, game.map.height as i32 - 1)
    );
}

#[test]
fn diagonal_movement() {
    let mut game = default_game();
    let start = game.player.pos;
    game.try_move(Point::new(1, 1));
    assert_eq!(game.player.pos, Point::new(start.x + 1, start.y + 1));
    assert_eq!(game.depth, game.map.depth(game.player.pos));
}

#[test]
fn cast_enters_aiming_mode() {
    let mut game = default_game();
    game.cast();
    assert!(matches!(game.mode, GameMode::Aiming { .. }));
    assert_eq!(game.mode, GameMode::Aiming { target: game.player.pos });
    assert_eq!(game.ui.layout(), UILayout::Help);
    assert_eq!(last_log(&game), "Select target...");
}

#[test]
fn cast_fails_without_fish() {
    let mut game = default_game();
    game.fishes.clear();
    game.cast();
    assert!(matches!(game.mode, GameMode::Exploring));
    assert_eq!(game.ui.layout(), UILayout::Help);
    assert_eq!(last_log(&game), "No fish around.");
}

#[test]
fn fishing_resolves_to_exploring() {
    let mut game = default_game();
    game.cast();
    game.confirm_cast();
    if let GameMode::Fishing { ref mut wait } = game.mode {
        *wait = 0;
    }
    game.meter = Some(TensionMeter { duration: 1, ..Default::default() });
    game.update_fishing();
    assert!(matches!(game.mode, GameMode::Exploring));
    assert_eq!(game.ui.layout(), UILayout::Standard);
}

#[test]
fn landing_a_fish_fills_inventory_and_codex() {
    let mut game = default_game();
    let last = game.fishes.last().unwrap().kind.id.clone();
    game.mode = GameMode::Fishing { wait: 0 };
    game.meter = Some(TensionMeter { duration: 1, ..Default::default() });
    game.update_fishing();
    assert_eq!(game.fishes.len(), 4);
    assert_eq!(game.player.inventory.len(), 1);
    assert_eq!(game.player.inventory[0].id, last);
    assert_eq!(game.codex.count(&last), 1);
    assert_eq!(game.codex.total_captures(), 1);
    assert!(game.meter.is_none());
    assert_eq!(last_log(&game), "Caught a fish!");
    assert_eq!(
        game.effects,
        vec![Effect::SaveCodex, Effect::Play(lurhook::audio::Sound::Catch)]
    );
    assert_eq!(game.area, Area::Coast);
}

#[test]
fn ongoing_fight_keeps_meter() {
    let mut game = default_game();
    game.mode = GameMode::Fishing { wait: 0 };
    game.meter = Some(TensionMeter::default());
    game.update_fishing();
    assert_eq!(game.mode, GameMode::Fishing { wait: 0 });
    let meter = game.meter.as_ref().unwrap();
    assert_eq!(meter.tension, 10);
    assert_eq!(meter.duration, 4);
    game.reeling = true;
    game.update_fishing();
    assert_eq!(game.mode, GameMode::Exploring);
    assert_eq!(last_log(&game), "The fish escaped!");
}

#[test]
fn waiting_counts_down_and_animates_cast() {
    let mut game = default_game();
    game.cast();
    if let GameMode::Aiming { ref mut target } = game.mode {
        target.x += 1;
    }
    game.confirm_cast();
    assert_eq!(game.mode, GameMode::Fishing { wait: 2 });
    assert_eq!(game.cast_path.as_ref().unwrap().len(), 1);
    game.update_fishing();
    assert_eq!(game.mode, GameMode::Fishing { wait: 1 });
    assert_eq!(game.cast_step, 1);
    assert!(game.cast_path.is_some());
    game.update_fishing();
    assert_eq!(game.mode, GameMode::Fishing { wait: 0 });
    assert_eq!(game.cast_step, 1);
    assert!(game.cast_path.is_none());
    assert!(game.meter.is_none());
}

#[test]
fn bite_roll_decides_hook_or_miss() {
    let mut game = default_game();
    game.mode = GameMode::Fishing { wait: 0 };
    let first = game.fishes[0].kind.clone();
    let tile = game.map.tile(game.fishes[0].position);
    let chance = lurhook::fishing::bite_probability(tile, 200);
    game.resolve_bite(chance - 1);
    let meter = game.meter.as_ref().expect("meter");
    assert_eq!(meter.strength, first.strength);
    assert_eq!(meter.style, first.fight_style);
    assert_eq!(meter.max_tension, 100);
    assert_eq!(meter.reel_factor, 1000);
    assert_eq!(game.mode, GameMode::Fishing { wait: 0 });
    assert_eq!(last_log(&game), "Hooked a fish!");
    assert_eq!(game.effects, vec![Effect::Play(lurhook::audio::Sound::Hit)]);

    let mut miss = default_game();
    miss.mode = GameMode::Fishing { wait: 0 };
    let tile = miss.map.tile(miss.fishes[0].position);
    let chance = lurhook::fishing::bite_probability(tile, 200);
    miss.resolve_bite(chance);
    assert!(miss.meter.is_none());
    assert_eq!(miss.mode, GameMode::Exploring);
    assert_eq!(miss.ui.layout(), UILayout::Standard);
    assert_eq!(last_log(&miss), "The fish got away...");
}

#[test]
fn camera_clamps_to_bounds() {
    let mut game = default_game();
    game.player.pos = Point::new(0, 0);
    assert_eq!(game.camera(), (0, 0));

    game.player.pos = Point::new(game.map.width as i32, game.map.height as i32);
    let cam = game.camera();
    assert!(cam.0 <= game.map.width as i32 - VIEW_WIDTH);
    assert!(cam.1 <= game.map.height as i32 - VIEW_HEIGHT);
    game.player.pos = Point::new(40, 25);
    assert_eq!(game.camera(), (10, 17));
}

#[test]
fn line_reduces_on_break() {
    let mut game = default_game();
    game.cast();
    game.confirm_cast();
    if let GameMode::Fishing { ref mut wait } = game.mode {
        *wait = 0;
    }
    game.meter = Some(TensionMeter { max_tension: 1, ..Default::default() });
    game.update_fishing();
    assert_eq!(game.player.line, 100 - LINE_DAMAGE);
    assert_eq!(game.mode, GameMode::Exploring);
    assert_eq!(last_log(&game), "Line snapped!");
}

#[test]
fn line_is_ruined_at_zero_and_stays_there() {
    let mut game = default_game();
    game.player.line = 10;
    game.mode = GameMode::Fishing { wait: 0 };
    game.meter = Some(TensionMeter { max_tension: 1, ..Default::default() });
    game.update_fishing();
    assert_eq!(game.player.line, 0);
    assert_eq!(last_log(&game), "Your line is ruined.");
    assert_eq!(game.ui.logs[game.ui.logs.len() - 2], "Line snapped!");
}

#[test]
fn lost_fish_returns_to_exploring() {
    let mut game = default_game();
    game.cast();
    game.confirm_cast();
    if let GameMode::Fishing { ref mut wait } = game.mode {
        *wait = 0;
    }
    game.meter = Some(TensionMeter { tension: 10, ..Default::default() });
    game.reeling = true;
    game.update_fishing();
    assert!(matches!(game.mode, GameMode::Exploring));
    assert_eq!(game.ui.layout(), UILayout::Standard);
    assert_eq!(game.player.line, 100);
}

#[test]
fn cannot_cast_without_line() {
    let mut game = default_game();
    game.player.line = 0;
    game.cast();
    assert!(matches!(game.mode, GameMode::Exploring));
    assert_eq!(last_log(&game), "Your line is broken!");
    game.fishes.clear();
    game.cast();
    assert!(matches!(game.mode, GameMode::Exploring));
    game.handle_input_key(Some(Key::C));
    assert!(matches!(game.mode, GameMode::Exploring));
}

#[test]
fn day_night_cycle_progresses() {
    let mut game = default_game();
    assert_eq!(game.time_of_day, "Dawn");
    for _ in 0..TIME_SEGMENT_TURNS {
        game.advance_time();
    }
    assert_eq!(game.time_of_day, "Day");
    for _ in 0..TIME_SEGMENT_TURNS {
        game.advance_time();
    }
    assert_eq!(game.time_of_day, "Dusk");
    for _ in 0..TIME_SEGMENT_TURNS {
        game.advance_time();
    }
    assert_eq!(game.time_of_day, "Night");
    for _ in 0..TIME_SEGMENT_TURNS {
        game.advance_time();
    }
    assert_eq!(game.time_of_day, "Dawn");
}

#[test]
fn hunger_ticks_down() {
    let mut game = default_game();
    let start = game.player.hunger;
    game.advance_time();
    assert_eq!(game.player.hunger, start - 1);
}

#[test]
fn starvation_damages_hp() {
    let mut game = default_game();
    game.player.hunger = 0;
    let hp_before = game.player.hp;
    game.pass_time();
    assert_eq!(game.player.hp, hp_before - 1);
    game.player.hp = 0;
    game.pass_time();
    assert_eq!(game.player.hp, 0);
    assert_eq!(game.player.hunger, 0);
}

#[test]
fn hunger_reaching_zero_is_announced() {
    let mut game = game_with(0, Difficulty::Hard);
    game.player.hunger = 1;
    game.pass_time();
    assert_eq!(game.player.hunger, 0);
    assert_eq!(last_log(&game), "You are starving!");
}

#[test]
fn score_calculation() {
    let mut game = default_game();
    let fish = sample_types()[0].clone();
    game.player.inventory.push(fish.clone());
    let expected = ((1.0 / (fish.rarity as f32 / 1000.0)) * 10.0) as i32;
    assert_eq!(game.score(), expected);
}

#[test]
fn score_rounds_and_adds_up() {
    let mut game = default_game();
    assert_eq!(game.score(), 0);
    game.player.inventory.push(species("A", 1000, 1, 0, 1));
    game.player.inventory.push(species("B", 500, 1, 0, 1));
    game.player.inventory.push(species("C", 300, 1, 0, 1));
    game.player.inventory.push(species("D", 50, 1, 0, 1));
    game.player.inventory.push(species("E", 800, 1, 0, 1));
    assert_eq!(game.score(), 10 + 20 + 33 + 200 + 13);
    game.player.inventory.push(species("Z", 0, 1, 0, 1));
    assert_eq!(game.score(), i32::MAX);
}

#[test]
fn end_run_sets_mode() {
    let mut game = default_game();
    let fish = sample_types()[0].clone();
    game.player.inventory.push(fish);
    game.end_run();
    assert!(matches!(game.mode, GameMode::End { .. }));
    assert_eq!(game.mode, GameMode::End { score: 10 });
    assert_eq!(last_log(&game), "Run ended! Final score: 10");
}

#[test]
fn pressing_q_quits() {
    let mut game = default_game();
    game.handle_input(Some(Key::Q), None);
    assert_eq!(game.effects, vec![Effect::Quit]);
}

#[test]
fn pressing_s_saves_game() {
    let mut game = default_game();
    game.handle_input(Some(Key::S), None);
    assert_eq!(game.effects, vec![Effect::SaveGame]);
    game.report_save(None);
    assert_eq!(last_log(&game), "Game saved.");
    game.report_save(Some("disk full"));
    assert_eq!(last_log(&game), "Save failed: disk full");
}

#[test]
fn time_advances_only_on_input() {
    let mut game = default_game();
    game.handle_input_key(None);
    assert_eq!(game.turn, 0);

    game.handle_input_key(Some(Key::Right));
    game.advance_time();
    assert_eq!(game.turn, 1);
}

#[test]
fn tick_without_input_changes_nothing() {
    let mut game = default_game();
    game.reeling = true;
    game.tick(None, None);
    assert_eq!(game.turn, 0);
    assert_eq!(game.player.hunger, MAX_HUNGER);
    assert!(!game.reeling);
    game.tick(Some(Key::L), None);
    assert_eq!(game.turn, 1);
    assert_eq!(game.player.hunger, MAX_HUNGER - 1);
    assert_eq!(game.player.pos, Point::new(41, 25));
}

#[test]
fn ended_run_does_not_advance() {
    let mut game = default_game();
    game.tick(Some(Key::Return), None);
    assert!(matches!(game.mode, GameMode::End { score: 0 }));
    assert_eq!(game.turn, 0);
    game.tick(Some(Key::Right), None);
    assert_eq!(game.turn, 0);
    assert_eq!(game.player.hunger, MAX_HUNGER);
}

#[test]
fn tension_bonus_applied_to_meter() {
    let mut game = default_game();
    game.player.tension_bonus = 50;
    game.player.bait_bonus = 1000; // guarantee bite
    game.cast();
    game.confirm_cast();
    if let GameMode::Fishing { ref mut wait } = game.mode {
        *wait = 0;
    }
    // Force meter creation
    game.update_fishing();
    if let Some(m) = &game.meter {
        assert_eq!(m.max_tension, 150);
    } else {
        panic!("meter not created");
    }
}

#[test]
fn reel_factor_affects_reeling() {
    let mut game = default_game();
    game.player.reel_factor = 2000;
    game.player.bait_bonus = 1000;
    game.cast();
    game.confirm_cast();
    if let GameMode::Fishing { ref mut wait } = game.mode {
        *wait = 0;
    }
    game.update_fishing();
    if let Some(mut m) = game.meter.take() {
        m.tension = 30;
        let before = m.tension;
        m.update(true);
        assert!(m.tension <= before - 20); // factor 2.0 reduces by >=20
    } else {
        panic!("meter not created");
    }
}

#[test]
fn visibility_radius_deep_water() {
    let mut game = default_game();
    fill(&mut game, TileKind::DeepWater);
    game.player.pos = Point::new(0, 0);
    assert!(game.is_visible(Point::new(4, 0)));
    assert!(!game.is_visible(Point::new(6, 0)));
    assert_eq!(game.visibility_radius(), 5);
}

#[test]
fn visibility_unlimited_on_land() {
    let mut game = default_game();
    fill(&mut game, TileKind::Land);
    game.player.pos = Point::new(0, 0);
    assert!(game.is_visible(Point::new(100, 0)));
    assert_eq!(game.visibility_radius(), i32::MAX);
}

#[test]
fn eat_fish_restores_hunger() {
    let mut game = default_game();
    let fish = sample_types()[0].clone();
    game.player.inventory.push(fish);
    game.player.hunger = 50;
    game.eat_fish();
    assert!(game.player.hunger > 50);
    assert_eq!(game.player.hunger, 70);
    assert!(game.player.inventory.is_empty());
}

#[test]
fn eating_caps_hunger() {
    let mut game = default_game();
    let fish = sample_types()[0].clone();
    game.player.inventory.push(fish);
    game.player.hunger = MAX_HUNGER - 5;
    game.eat_fish();
    assert_eq!(game.player.hunger, MAX_HUNGER);
}

#[test]
fn eating_without_fish_logs_message() {
    let mut game = default_game();
    game.eat_fish();
    assert_eq!(game.player.hunger, MAX_HUNGER);
    assert_eq!(last_log(&game), "No fish to eat.");
}

#[test]
fn cook_fish_restores_more_hunger_and_hp() {
    let mut game = default_game();
    let fish = sample_types()[0].clone();
    game.player.inventory.push(fish);
    game.player.hunger = 50;
    game.player.hp = MAX_HP - 2;
    // ensure on land
    fill(&mut game, TileKind::Land);
    game.cook_fish();
    assert!(game.player.hunger > 50);
    assert_eq!(game.player.hunger, 90);
    assert_eq!(game.player.hp, MAX_HP);
    assert!(game.player.inventory.is_empty());
}

#[test]
fn cooking_needs_land_and_fish() {
    let mut game = default_game();
    game.player.inventory.push(sample_types()[0].clone());
    fill(&mut game, TileKind::ShallowWater);
    game.cook_fish();
    assert_eq!(game.player.inventory.len(), 1);
    assert_eq!(last_log(&game), "You need to be on land to cook.");
    fill(&mut game, TileKind::Land);
    game.player.inventory.clear();
    game.cook_fish();
    assert_eq!(last_log(&game), "No fish to cook.");
}

#[test]
fn canned_food_restores_hunger() {
    let mut game = default_game();
    game.player.canned_food = 1;
    game.player.hunger = 50;
    game.eat_canned_food();
    assert!(game.player.hunger > 50);
    assert_eq!(game.player.hunger, MAX_HUNGER);
    assert_eq!(game.player.canned_food, 0);
    game.eat_canned_food();
    assert_eq!(game.player.canned_food, 0);
    assert_eq!(last_log(&game), "No canned food available.");
}

#[test]
fn land_event_triggers() {
    let mut game = LurhookGame::new(8, assets_for(8, Area::Coast)).unwrap();
    fill(&mut game, TileKind::Land);
    let hp = game.player.hp;
    let food = game.player.canned_food;
    game.advance_time();
    assert!(game.player.hp > hp || game.player.canned_food > food);
}

#[test]
fn shore_event_rests_or_finds_food() {
    let mut game = default_game();
    game.player.hp = 4;
    game.shore_event(0);
    assert_eq!(game.player.hp, 5);
    assert_eq!(last_log(&game), "You rest on the shore.");
    game.shore_event(1);
    assert_eq!(game.player.hp, 5);
    assert_eq!(game.player.canned_food, 1);
    assert_eq!(last_log(&game), "You found canned food!");
    game.player.hp = MAX_HP;
    game.shore_event(0);
    assert_eq!(game.player.hp, MAX_HP);
    assert_eq!(game.player.canned_food, 2);
}

#[test]
fn storm_event_sets_turns() {
    let mut game = LurhookGame::new(8, assets_for(8, Area::Coast)).unwrap();
    fill(&mut game, TileKind::DeepWater);
    game.player.pos = Point::new(0, 0);
    game.advance_time();
    assert!(game.storm_turns > 0);
}

#[test]
fn deep_water_rolls_decide_storm_and_hazard() {
    let mut game = default_game();
    game.deep_water_event(5, 8);
    assert_eq!(game.storm_turns, 0);
    assert!(game.hazards.is_empty());
    game.deep_water_event(4, 7);
    assert_eq!(game.storm_turns, 5);
    assert_eq!(game.hazards, vec![Hazard { pos: game.player.pos, turns: 3 }]);
    assert_eq!(last_log(&game), "A jellyfish appears!");
    assert_eq!(game.ui.logs[game.ui.logs.len() - 2], "A storm reduces visibility!");
}

#[test]
fn visibility_reduced_during_storm() {
    let mut game = default_game();
    fill(&mut game, TileKind::DeepWater);
    game.player.pos = Point::new(0, 0);
    game.storm_turns = 1;
    assert!(!game.is_visible(Point::new(6, 0)));
    assert!(game.is_visible(Point::new(3, 0)));
    assert!(!game.is_visible(Point::new(4, 0)));
}

#[test]
fn hazard_damages_player() {
    let mut game = default_game();
    game.hazards.push(Hazard { pos: game.player.pos, turns: 1 });
    let hp = game.player.hp;
    let line = game.player.line;
    game.update_hazards();
    assert!(game.player.hp < hp);
    assert!(game.player.line < line);
    assert!(game.hazards.is_empty());
}

#[test]
fn hazards_age_sting_and_expire() {
    let mut game = default_game();
    let here = game.player.pos;
    let away = Point::new(here.x + 3, here.y);
    game.hazards = vec![
        Hazard { pos: away, turns: 3 },
        Hazard { pos: here, turns: 2 },
        Hazard { pos: here, turns: 1 },
        Hazard { pos: away, turns: 0 },
    ];
    game.player.hp = 1;
    game.player.line = 20;
    game.update_hazards();
    assert_eq!(
        game.hazards,
        vec![Hazard { pos: away, turns: 2 }, Hazard { pos: here, turns: 1 }]
    );
    assert_eq!(game.player.hp, 0);
    assert_eq!(game.player.line, 0);
    assert_eq!(game.ui.logs.len(), 1);
    assert_eq!(last_log(&game), "A jellyfish stings you!");
}

#[test]
fn line_path_returns_endpoints() {
    let start = Point::new(0, 0);
    let end = Point::new(3, 0);
    let path = line_path(start, end);
    assert_eq!(path.first().unwrap(), &Point::new(1, 0));
    assert_eq!(path.last().unwrap(), &end);
}

#[test]
fn line_path_follows_the_line() {
    assert!(line_path(Point::new(2, 2), Point::new(2, 2)).is_empty());
    assert_eq!(
        line_path(Point::new(0, 0), Point::new(3, 3)),
        vec![Point::new(1, 1), Point::new(2, 2), Point::new(3, 3)]
    );
    assert_eq!(
        line_path(Point::new(0, 0), Point::new(4, 2)),
        vec![Point::new(1, 1), Point::new(2, 1), Point::new(3, 2), Point::new(4, 2)]
    );
    assert_eq!(
        line_path(Point::new(5, 5), Point::new(4, 2)),
        vec![Point::new(5, 4), Point::new(4, 3), Point::new(4, 2)]
    );
}

#[test]
fn confirm_cast_initializes_animation() {
    let mut game = default_game();
    game.cast();
    if let GameMode::Aiming { ref mut target } = game.mode {
        target.x += 2;
    }
    game.confirm_cast();
    assert!(game.cast_path.is_some());
    assert_eq!(game.cast_step, 0);
    assert_eq!(game.mode, GameMode::Fishing { wait: 2 });
    assert_eq!(game.ui.layout(), UILayout::Fishing);
}

#[test]
fn inventory_cursor_moves() {
    let mut game = default_game();
    game.player.items.push(item("EXTRA", ItemKind::Food, 0, 1000, 0));
    game.inventory_focus = true;
    game.handle_input(Some(Key::Down), None);
    assert_eq!(game.inventory_cursor, 1);
    game.handle_input(Some(Key::J), None);
    assert_eq!(game.inventory_cursor, 1);
    game.handle_input(Some(Key::Up), None);
    assert_eq!(game.inventory_cursor, 0);
    game.handle_input(Some(Key::K), None);
    assert_eq!(game.inventory_cursor, 0);
}

#[test]
fn activate_selected_item_equips_rod() {
    let mut game = default_game();
    let rod = item("R2", ItemKind::Rod, 5, 1000, 0);
    game.player.items.push(rod.clone());
    game.inventory_cursor = game.player.items.len() - 1;
    game.inventory_focus = true;
    game.activate_selected_item();
    assert_eq!(game.player.tension_bonus, 5);
    assert_eq!(game.player.rod.as_ref().unwrap().id, "R2");
    let left: Vec<&str> = game.player.items.iter().map(|i| i.id.as_str()).collect();
    assert_eq!(left, vec!["CAN", "ROD"]);
    assert_eq!(game.inventory_cursor, 1);
}

#[test]
fn activating_food_and_fish_eats_them() {
    let mut game = default_game();
    game.player.inventory.push(species("A", 1000, 1, 0, 1));
    game.player.hunger = 10;
    game.inventory_cursor = 1;
    game.activate_selected_item();
    assert_eq!(game.player.hunger, 30);
    assert!(game.player.inventory.is_empty());
    assert_eq!(game.inventory_cursor, 0);
    assert_eq!(last_log(&game), "You ate a raw fish.");
    game.activate_selected_item();
    assert_eq!(game.player.hunger, 90);
    assert!(game.player.items.is_empty());
    assert_eq!(last_log(&game), "You ate food.");
    game.activate_selected_item();
    assert_eq!(game.player.hunger, 90);
}

#[test]
fn options_key_opens_menu() {
    let mut game = default_game();
    let options = game.input.options;
    game.handle_input(Some(options), None);
    assert_eq!(game.ui.layout(), UILayout::Options);
    game.handle_input(Some(options), None);
    assert_eq!(game.ui.layout(), UILayout::Standard);
}

#[test]
fn options_menu_changes_settings() {
    let mut game = default_game();
    game.ui.set_layout(UILayout::Options);
    let start = game.player.pos;
    game.handle_input_key(Some(Key::C));
    assert!(!game.input.colorblind);
    assert_eq!(game.mode, GameMode::Aiming { target: start });
    game.mode = GameMode::Fishing { wait: 9 };
    game.handle_input_key(Some(Key::C));
    assert!(game.input.colorblind);
    game.handle_input_key(Some(Key::Plus));
    assert_eq!(game.input.volume, 6);
    assert_eq!(game.audio.volume(), 6);
    game.handle_input_key(Some(Key::LBracket));
    assert_eq!(game.input.font_scale, 1);
    game.handle_input_key(Some(Key::RBracket));
    assert_eq!(game.input.font_scale, 2);
    game.handle_input_key(Some(Key::Key1));
    assert_eq!(game.input.cast, Key::X);
    game.handle_input_key(Some(Key::L));
    assert_eq!(game.player.pos, start);
    assert_eq!(
        game.effects,
        vec![Effect::SaveConfig, Effect::SaveConfig, Effect::SaveConfig, Effect::SaveConfig]
    );
    game.input.volume = 10;
    game.handle_input_key(Some(Key::Plus));
    assert_eq!(game.input.volume, 10);
    game.handle_input_key(Some(Key::Minus));
    assert_eq!(game.input.volume, 9);
    assert_eq!(game.audio.volume(), 9);
    assert_eq!(game.effects.len(), 5);
    game.handle_input_key(Some(Key::Key1));
    assert_eq!(game.input.cast, Key::Z);
    game.handle_input_key(Some(Key::Key1));
    assert_eq!(game.input.cast, Key::C);
}

#[test]
fn bindings_decide_what_a_key_means() {
    let cfg = InputConfig::default();
    let c = cfg.press(Key::C);
    assert!(c.cast && !c.reel);
    assert_eq!(c.menu, MenuKey::Colorblind);
    assert_eq!(c.delta, Point::new(0, 0));
    assert_eq!(cfg.press(Key::H).delta, Point::new(-1, 0));
    assert_eq!(cfg.press(Key::Left).delta, Point::new(-1, 0));
    assert_eq!(cfg.press(Key::L).delta, Point::new(1, 0));
    assert_eq!(cfg.press(Key::K).delta, Point::new(0, -1));
    assert_eq!(cfg.press(Key::J).delta, Point::new(0, 1));
    assert_eq!(cfg.press(Key::Y).delta, Point::new(-1, -1));
    assert_eq!(cfg.press(Key::U).delta, Point::new(1, -1));
    assert_eq!(cfg.press(Key::B).delta, Point::new(-1, 1));
    assert_eq!(cfg.press(Key::N).delta, Point::new(1, 1));
    assert_eq!(cfg.press(Key::Other), no_key());
    assert_eq!(cfg.press(Key::Key1).menu, MenuKey::CastKey);
    let mut odd = cfg;
    odd.reel = Key::C;
    odd.up_left = Key::Right;
    let both = odd.press(Key::C);
    assert!(both.cast && both.reel);
    assert_eq!(odd.press(Key::Right).delta, Point::new(1, 0));
}

#[test]
fn keys_follow_their_order_of_precedence() {
    let mut game = default_game();
    game.ui.set_layout(UILayout::Standard);
    let mut both = no_key();
    both.cast = true;
    both.reel = true;
    game.handle_press(both);
    assert!(matches!(game.mode, GameMode::Aiming { .. }));
    game.handle_press(arrow(-1, 1));
    assert_eq!(
        game.mode,
        GameMode::Aiming { target: Point::new(game.player.pos.x - 1, game.player.pos.y + 1) }
    );
    game.handle_press(both);
    assert_eq!(game.mode, GameMode::Fishing { wait: 2 });
    game.handle_press(both);
    assert!(game.reeling);
    game.handle_input_key(Some(Key::Other));
    assert!(!game.reeling);
}

#[test]
fn left_click_moves_player() {
    let mut game = default_game();
    let (cam_x, cam_y) = game.camera();
    game.handle_input(None, Some((1, 1)));
    assert_eq!(game.player.pos, Point::new(cam_x + 1, cam_y + 1));
}

#[test]
fn left_click_sets_aim_target() {
    let mut game = default_game();
    game.cast();
    let (cam_x, cam_y) = game.camera();
    game.handle_input(None, Some((2, 2)));
    match game.mode {
        GameMode::Aiming { target } => {
            assert_eq!(target, Point::new(cam_x + 2, cam_y + 2));
        }
        _ => panic!("not aiming"),
    }
}

#[test]
fn click_outside_view_is_ignored() {
    let mut game = default_game();
    let start = game.player.pos;
    game.handle_input(None, Some((60, 3)));
    assert_eq!(game.player.pos, start);
    game.handle_input(None, Some((3, 17)));
    assert_eq!(game.player.pos, start);
}

#[test]
fn difficulty_affects_hunger() {
    let mut easy = game_with(0, Difficulty::Easy);
    let mut hard = game_with(0, Difficulty::Hard);
    let start_easy = easy.player.hunger;
    easy.advance_time();
    assert_eq!(easy.player.hunger, start_easy); // first turn no loss
    easy.advance_time();
    assert!(easy.player.hunger < start_easy);

    let start_hard = hard.player.hunger;
    hard.advance_time();
    assert_eq!(start_hard - hard.player.hunger, 2);
}

#[test]
fn hazard_chance_scales() {
    assert!(
        Difficulty::Hard.hazard_chance(Area::Coast) > Difficulty::Normal.hazard_chance(Area::Coast)
    );
    assert!(
        Difficulty::Easy.hazard_chance(Area::Coast) < Difficulty::Normal.hazard_chance(Area::Coast)
    );
    assert_eq!(Difficulty::Easy.hazard_chance(Area::Coast), 4);
    assert_eq!(Difficulty::Normal.hazard_chance(Area::Offshore), 16);
    assert_eq!(Difficulty::Hard.hazard_chance(Area::DeepSea), 48);
    assert_eq!(Difficulty::default(), Difficulty::Normal);
    assert_eq!(Difficulty::Easy.hunger_loss(3), 0);
    assert_eq!(Difficulty::Easy.hunger_loss(4), 1);
}

#[test]
fn new_with_area_sets_map_size() {
    let game =
        LurhookGame::new_with_area(0, Difficulty::Normal, Area::DeepSea, assets_for(0, Area::DeepSea))
            .unwrap();
    assert!(game.map.width > 120 && game.map.height > 80);
    assert_eq!(Area::Coast.size(), (80, 50));
    assert_eq!(Area::Offshore.size(), (120, 80));
    assert_eq!(Area::DeepSea.size(), (160, 120));
    assert_eq!(Area::Coast.hazard_multiplier(), 1);
    assert_eq!(Area::Offshore.hazard_multiplier(), 2);
    assert_eq!(Area::DeepSea.hazard_multiplier(), 3);
}

#[test]
fn area_upgrades_after_catches() {
    let mut game = default_game();
    for _ in 0..3 {
        game.codex.record_capture("A");
    }
    game.check_area_upgrade();
    assert_eq!(game.area, Area::Offshore);
    assert_eq!(game.seed, 1);
    assert_eq!((game.map.width, game.map.height), (120, 80));
    assert_eq!(game.player.pos, Point::new(60, 40));
    assert_eq!(game.fishes.len(), 5);
    assert_eq!(last_log(&game), "Unlocked offshore area!");
    game.check_area_upgrade();
    assert_eq!(game.area, Area::Offshore);
    for _ in 0..3 {
        game.codex.record_capture("B");
    }
    game.check_area_upgrade();
    assert_eq!(game.area, Area::DeepSea);
    assert_eq!(game.seed, 2);
    assert_eq!((game.map.width, game.map.height), (160, 120));
    assert_eq!(last_log(&game), "Unlocked deep sea!");
    game.check_area_upgrade();
    assert_eq!(game.area, Area::DeepSea);
    assert_eq!(game.seed, 2);
}

#[test]
fn area_stays_below_threshold() {
    let mut game = default_game();
    game.codex.record_capture("A");
    game.codex.record_capture("A");
    game.check_area_upgrade();
    assert_eq!(game.area, Area::Coast);
    assert_eq!(game.seed, 0);
    assert_eq!(game.map.width, 80);
}

#[test]
fn tide_turns_every_twenty_turns() {
    let mut game = default_game();
    assert_eq!(game.current_drift(), Point::new(1, 0));
    game.turn = 19;
    assert_eq!(game.current_drift(), Point::new(1, 0));
    game.turn = 20;
    assert_eq!(game.current_drift(), Point::new(-1, 0));
    game.turn = 40;
    assert_eq!(game.current_drift(), Point::new(1, 0));
}

#[test]
fn inventory_lines_list_items_then_fish() {
    let mut game = default_game();
    assert_eq!(game.inventory_lines(), vec!["CAN".to_string()]);
    game.player.inventory.push(species("Pike", 1000, 1, 0, 1));
    assert_eq!(game.inventory_lines(), vec!["CAN".to_string(), "Pike".to_string()]);
    game.player.items.clear();
    game.player.inventory.clear();
    assert_eq!(game.inventory_lines(), vec!["(empty)".to_string()]);
}

#[test]
fn charts_are_checked_against_area_and_seed() {
    let assets = assets_for(4, Area::Coast);
    assert!(assets.charts.valid_for(Area::Coast, 4));
    assert!(!assets.charts.valid_for(Area::Coast, 5));
    assert!(!assets.charts.valid_for(Area::Offshore, 4));
    assert!(assets.charts.valid_for(Area::Offshore, 5));
    assert!(assets.charts.valid_for(Area::DeepSea, 0));
    assert!(lurhook::game::fits(&assets.terrain, Area::Coast, 4));
    assert!(!lurhook::game::fits(&assets.terrain, Area::Offshore, 4));
    assert!(lurhook::game::holds_water(&assets.terrain));
}

#[test]
fn enter_from_menu_starts_game() {
    let mut app = LurhookApp::new();
    let action = app.update_state(Some(Key::Key1), None);
    assert_eq!(action, AppAction::Start(Difficulty::Easy));
    app.start(game_with(0, Difficulty::Easy));
    match app.state {
        AppState::Running(_) => {}
        _ => panic!("did not start game"),
    }
}

#[test]
fn summary_return_goes_to_menu() {
    let mut app = LurhookApp { state: AppState::Summary(10) };
    app.update_state(Some(Key::Return), None);
    assert!(matches!(app.state, AppState::Menu));
}

#[test]
fn app_runs_a_game_to_its_summary() {
    let mut app = LurhookApp::default();
    assert_eq!(app.update_state(Some(Key::Other), None), AppAction::Continue);
    assert_eq!(app.update_state(Some(Key::Q), None), AppAction::Quit);
    assert_eq!(app.update_state(Some(Key::Key2), None), AppAction::Start(Difficulty::Normal));
    assert_eq!(app.update_state(Some(Key::Key3), None), AppAction::Start(Difficulty::Hard));
    let mut game = game_with(0, Difficulty::Hard);
    game.player.inventory.push(species("B", 500, 1, 0, 1));
    app.start(game);
    assert_eq!(app.update_state(Some(Key::Right), None), AppAction::Continue);
    assert!(matches!(app.state, AppState::Running(_)));
    assert_eq!(app.update_state(Some(Key::Return), None), AppAction::Continue);
    assert!(matches!(app.state, AppState::Summary(20)));
    assert_eq!(app.update_state(Some(Key::Q), None), AppAction::Quit);
    assert!(matches!(app.state, AppState::Summary(20)));
}

#[test]
fn save_and_load_roundtrip() {
    let mut game = default_game();
    game.player.hp = 7;
    game.player.hunger = 42;
    game.player.canned_food = 3;
    game.try_move(Point::new(-1, 1));
    let text = game.save_text();
    assert_eq!(
        text,
        "(player:(pos:(x:39, y:26), hp:7, hunger:42, food:3), time_of_day:\"Dawn\")"
    );
    let loaded = LurhookGame::load_game(&text, assets_for(0, Area::Coast)).unwrap();
    assert_eq!(loaded.player.pos, game.player.pos);
    assert_eq!(loaded.player.hp, game.player.hp);
    assert_eq!(loaded.player.hunger, game.player.hunger);
    assert_eq!(loaded.player.canned_food, game.player.canned_food);
    assert_eq!(loaded.time_of_day, game.time_of_day);
}

#[test]
fn toggle_colorblind_persists() {
    let mut game = default_game();
    game.ui.set_layout(UILayout::Options);
    game.mode = GameMode::Fishing { wait: 9 };
    game.handle_input_key(Some(Key::C));
    assert!(game.input.colorblind);
    assert_eq!(game.effects, vec![Effect::SaveConfig]);
    let loaded = InputConfig::from_text(&game.input.to_text());
    assert_eq!(loaded.colorblind, game.input.colorblind);
}

#[test]
fn cycle_cast_key_persists() {
    let mut game = default_game();
    game.ui.set_layout(UILayout::Options);
    game.mode = GameMode::Fishing { wait: 9 };
    let orig = game.input.cast;
    game.handle_input_key(Some(Key::Key1));
    assert_eq!(game.effects, vec![Effect::SaveConfig]);
    let loaded = InputConfig::from_text(&game.input.to_text());
    assert_ne!(loaded.cast, orig);
    assert_eq!(loaded.cast, game.input.cast);
}

#[test]
fn snapshot_reads_back_as_written() {
    let mut game = default_game();
    let times = ["Dawn", "Day", "Dusk", "Night"];
    let values = [0, 1, -1, 9, 10, 100, i32::MAX, i32::MIN];
    for (k, v) in values.iter().enumerate() {
        game.player.pos = Point::new(*v, values[(k + 3) % values.len()]);
        game.player.hp = values[(k + 1) % values.len()];
        game.player.hunger = values[(k + 5) % values.len()];
        game.player.canned_food = values[(k + 6) % values.len()];
        game.time_of_day = times[k % 4];
        let snapshot = lurhook::save::parse_snapshot(&game.save_text()).unwrap();
        assert_eq!(snapshot.pos, game.player.pos);
        assert_eq!(snapshot.hp, game.player.hp);
        assert_eq!(snapshot.hunger, game.player.hunger);
        assert_eq!(snapshot.canned_food, game.player.canned_food);
        assert_eq!(snapshot.time, (k % 4) as u32);
    }
}

#[test]
fn sessions_with_one_seed_are_alike() {
    let keys = [
        Key::L, Key::L, Key::J, Key::C, Key::L, Key::C, Key::R, Key::R, Key::R, Key::R, Key::R,
        Key::R, Key::R, Key::K, Key::H, Key::Y, Key::N, Key::C, Key::C, Key::Other,
    ];
    let play = |seed: u64| {
        let mut game = game_with(seed, Difficulty::Normal);
        game.ui.set_layout(UILayout::Standard);
        for round in 0..12 {
            for key in keys {
                game.tick(Some(key), None);
            }
            game.tick(None, Some((round, round + 1)));
        }
        game
    };
    let a = play(7);
    let b = play(7);
    let places = |g: &LurhookGame| {
        g.fishes.iter().map(|f| (f.kind.id.clone(), f.position)).collect::<Vec<_>>()
    };
    assert_eq!(places(&a), places(&b));
    assert_eq!(a.turn, b.turn);
    assert_eq!(a.player.pos, b.player.pos);
    assert_eq!(a.player.hp, b.player.hp);
    assert_eq!(a.player.hunger, b.player.hunger);
    assert_eq!(a.player.line, b.player.line);
    assert_eq!(a.player.canned_food, b.player.canned_food);
    assert_eq!(a.player.inventory.len(), b.player.inventory.len());
    assert_eq!(a.hazards, b.hazards);
    assert_eq!(a.storm_turns, b.storm_turns);
    assert_eq!(a.mode, b.mode);
    assert_eq!(a.ui.logs, b.ui.logs);
    assert_eq!(a.effects, b.effects);
    assert_eq!(a.time_of_day, b.time_of_day);
    assert!(a.turn > 200);
    assert!(a.player.hp >= 0 && a.player.hunger >= 0 && a.player.line >= 0);
    for f in &a.fishes {
        assert!(a.map.contains(f.position));
        assert!(a.map.tile(f.position).water());
    }
}
