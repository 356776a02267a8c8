use lurhook::audio::AudioManager;
use lurhook::codex::Codex;
use lurhook::common::{GameError, Point};
use lurhook::data::{FightStyle, FishType};
use lurhook::mapgen::{generate, GameMap, NoiseField, TileKind};
use lurhook::ui::{
    help_strings, hunger_bar_string, inventory_strings, tension_bar_string, UIContext, UILayout,
};

use bracket_lib::prelude::{FastNoise, NoiseType};

fn sample_field(seed: u64, width: u32, height: u32) -> NoiseField {
    let mut noise = FastNoise::seeded(seed);
    noise.set_noise_type(NoiseType::Perlin);
    noise.set_frequency(0.08);
    let mut samples = Vec::new();
    for y in 0..height {
        for x in 0..width {
            let v = noise.get_noise(x as f32, y as f32);
            samples.push((v * 10_000.0).floor() as i32);
        }
    }
    NoiseField { seed, width, height, samples }
}

#[test]
fn volume_clamped() {
    let m = AudioManager::new(15);
    assert_eq!(m.volume(), 10);
}

#[test]
fn set_volume_clamps() {
    let mut m = AudioManager::new(5);
    m.set_volume(20);
    assert_eq!(m.volume(), 10);
}

#[test]
fn volume_below_cap_is_kept() {
    let mut m = AudioManager::new(7);
    assert_eq!(m.volume(), 7);
    m.set_volume(0);
    assert_eq!(m.volume(), 0);
}

#[test]
fn total_captures_sums_values() {
    let mut c = Codex::default();
    c.set_count("A", 2);
    c.set_count("B", 3);
    assert_eq!(c.total_captures(), 5);
}

#[test]
fn codex_counts_captures_by_species() {
    let mut c = Codex::new();
    assert_eq!(c.count("A"), 0);
    c.record_capture("A");
    c.record_capture("B");
    c.record_capture("A");
    assert_eq!(c.count("A"), 2);
    assert_eq!(c.count("B"), 1);
    assert_eq!(c.count("C"), 0);
    assert_eq!(c.total_captures(), 3);
    c.set_count("A", 7);
    assert_eq!(c.count("A"), 7);
    assert_eq!(c.total_captures(), 8);
    let entries = c.entries();
    assert_eq!(entries.len(), 2);
    assert_eq!(entries[0].id, "A");
    assert_eq!(entries[0].count, 7);
    assert_eq!(entries[1].id, "B");
    assert_eq!(entries[1].count, 1);
}

#[test]
fn point_new_sets_coordinates() {
    let p = Point::new(2, 3);
    assert_eq!(p.x, 2);
    assert_eq!(p.y, 3);
}

#[test]
fn game_error_display_parse() {
    let err = GameError::Parse("oops".into());
    assert_eq!(err.to_string(), "parse error: oops");
}

#[test]
fn game_error_display_invalid_operation() {
    assert_eq!(GameError::InvalidOperation.to_string(), "invalid operation");
}

#[test]
fn game_error_display_io_is_transparent() {
    let io_err = std::io::Error::new(std::io::ErrorKind::Other, "disk on fire");
    let text = io_err.to_string();
    let err: GameError = io_err.into();
    assert_eq!(err.to_string(), text);
}

#[test]
fn io_error_conversion() {
    let io_err = std::io::Error::from(std::io::ErrorKind::Other);
    let err: GameError = io_err.into();
    assert!(matches!(err, GameError::Io(_)));
}

#[test]
fn generate_map() {
    let map = generate(&sample_field(0, 120, 80)).expect("map");
    assert_eq!(map.width, 120);
    assert_eq!(map.height, 80);
    assert_eq!(map.tiles.len(), 120 * 80);
    assert_eq!(map.depths.len(), 120 * 80);
}

#[test]
fn index_calculation() {
    let map = GameMap::new(10, 10);
    let idx = map.idx(Point::new(3, 2));
    assert_eq!(idx, 2 * 10 + 3);
}

#[test]
fn new_fills_with_land() {
    let map = GameMap::new(4, 3);
    assert!(map.tiles.iter().all(|&t| t == TileKind::Land));
    assert!(map.depths.iter().all(|&d| d == 0));
    assert_eq!(map.tiles.len(), 12);
    assert_eq!(map.depths.len(), 12);
}

#[test]
fn generated_map_has_water() {
    let map = generate(&sample_field(1, 120, 80)).expect("map");
    assert!(map.tiles.iter().any(|&t| t != TileKind::Land));
}

#[test]
fn generate_is_repeatable() {
    let a = generate(&sample_field(7, 40, 30)).expect("map");
    let b = generate(&sample_field(7, 40, 30)).expect("map");
    assert_eq!(a.tiles, b.tiles);
    assert_eq!(a.depths, b.depths);
}

#[test]
fn generate_classifies_by_thresholds() {
    let field = NoiseField {
        seed: 0,
        width: 4,
        height: 2,
        samples: vec![-2001, -2000, -1, 0, 5000, -10_000, -1950, -49],
    };
    let map = generate(&field).expect("map");
    assert_eq!(
        map.tiles,
        vec![
            TileKind::DeepWater,
            TileKind::ShallowWater,
            TileKind::ShallowWater,
            TileKind::Land,
            TileKind::Land,
            TileKind::DeepWater,
            TileKind::ShallowWater,
            TileKind::ShallowWater,
        ]
    );
    assert_eq!(map.depths, vec![20, 20, 0, 0, 0, 100, 20, 0]);
    assert_eq!(map.depth(Point::new(1, 1)), 100);
    assert_eq!(map.tile(Point::new(0, 0)), TileKind::DeepWater);
    assert!(map.contains(Point::new(3, 1)));
    assert!(!map.contains(Point::new(4, 0)));
    assert!(!map.contains(Point::new(0, -1)));
}

#[test]
fn log_addition() {
    let mut ui = UIContext::default();
    ui.add_log("test").unwrap();
    assert_eq!(ui.logs.len(), 1);
    assert_eq!(ui.logs[0], "test");
}

#[test]
fn tension_bar_format() {
    let bar = tension_bar_string(5, 10);
    assert_eq!(bar, "[#####-----]");
}

#[test]
fn tension_bar_zero_and_full() {
    assert_eq!(tension_bar_string(0, 10), "[----------]");
    assert_eq!(tension_bar_string(10, 10), "[##########]");
}

#[test]
fn tension_bar_rounds_to_nearest_cell() {
    assert_eq!(tension_bar_string(24, 100), "[##--------]");
    assert_eq!(tension_bar_string(25, 100), "[###-------]");
    assert_eq!(tension_bar_string(-3, 100), "[----------]");
}

#[test]
fn hunger_bar_alias() {
    assert_eq!(hunger_bar_string(5, 10), "[#####-----]");
}

#[test]
fn layout_switching() {
    let mut ui = UIContext::default();
    assert_eq!(ui.layout(), UILayout::Standard);
    ui.set_layout(UILayout::Fishing);
    assert_eq!(ui.layout(), UILayout::Fishing);
    ui.set_layout(UILayout::Inventory);
    assert_eq!(ui.layout(), UILayout::Inventory);
    ui.set_layout(UILayout::Help);
    assert_eq!(ui.layout(), UILayout::Help);
}

#[test]
fn scrolling_bounds() {
    let mut ui = UIContext::default();
    for i in 0..10 {
        ui.add_log(&format!("{}", i)).unwrap();
    }
    ui.scroll_up();
    assert_eq!(ui.scroll, 1);
    for _ in 0..20 {
        ui.scroll_down();
    }
    assert_eq!(ui.scroll, 0);
}

#[test]
fn scrolling_stops_at_oldest_window() {
    let mut ui = UIContext::default();
    for i in 0..10 {
        ui.add_log(&format!("{}", i)).unwrap();
    }
    assert_eq!(ui.log_window(), (2, 10));
    for _ in 0..5 {
        ui.scroll_up();
    }
    assert_eq!(ui.scroll, 2);
    assert_eq!(ui.log_window(), (0, 8));
    let mut short = UIContext::default();
    short.add_log("only").unwrap();
    short.scroll_up();
    assert_eq!(short.scroll, 0);
    assert_eq!(short.log_window(), (0, 1));
}

#[test]
fn inventory_string_generation() {
    let fish = FishType {
        id: "A".into(),
        name: "FishA".into(),
        rarity: 1000,
        strength: 1,
        min_depth: 0,
        max_depth: 1,
        fight_style: FightStyle::Aggressive,
        legendary: false,
    };
    assert_eq!(inventory_strings(&[fish.clone()]), vec!["FishA".to_string()]);
    assert_eq!(inventory_strings(&[]), vec!["(empty)".to_string()]);
}

#[test]
fn help_strings_contains_controls() {
    let lines = help_strings();
    assert_eq!(lines.first().unwrap(), "Controls:");
    assert!(lines.iter().any(|l| l.contains("F1")));
    assert_eq!(lines.len(), 7);
}
