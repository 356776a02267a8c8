use bracket_lib::prelude::{FastNoise, NoiseType, RandomNumberGenerator};
use lurhook::common::{GameError, Point};
use lurhook::data::{FightStyle, FishType};
use lurhook::ecology::{
    depth_candidates, find_leader, pick_species, spawn_fish, spawn_fish_population, step_fish,
    sum_rarity, update_fish, water_tiles, Fish,
};
use lurhook::mapgen::{generate, GameMap, NoiseField, TileKind};

fn sample_field(seed: u64, width: u32, height: u32) -> NoiseField {
    let mut noise = FastNoise::seeded(seed);
    noise.set_noise_type(NoiseType::Perlin);
    noise.set_frequency(0.08);
    let mut samples = Vec::new();
    for y in 0..height {
        for x in 0..width {
            let v = noise.get_noise(x as f32, y as f32);
            samples.push((v * 10_000.0).floor() as i32);
        }
    }
    NoiseField { seed, width, height, samples }
}

fn species(id: &str, rarity: u32, strength: i32, min_depth: i32, max_depth: i32) -> FishType {
    FishType {
        id: id.into(),
        name: id.into(),
        rarity,
        strength,
        min_depth,
        max_depth,
        fight_style: FightStyle::Aggressive,
        legendary: false,
    }
}

fn sample_types() -> Vec<FishType> {
    vec![
        species("MINNOW", 1000, 2, 0, 15),
        species("BASS", 800, 4, 5, 40),
        species("EEL", 500, 5, 10, 60),
        species("TUNA", 200, 8, 20, 100),
    ]
}

fn water_map(width: u32, height: u32) -> GameMap {
    let mut map = GameMap::new(width, height);
    for t in map.tiles.iter_mut() {
        *t = TileKind::ShallowWater;
    }
    map
}

fn is_water(map: &GameMap, pt: Point) -> bool {
    matches!(map.tiles[map.idx(pt)], TileKind::ShallowWater | TileKind::DeepWater)
}

#[test]
fn spawn_one_fish() {
    let mut map = generate(&sample_field(0, 120, 80)).expect("map");
    let types = sample_types();
    let fish = spawn_fish(&mut map, &types).expect("fish");
    let depth = map.depth(fish.position);
    assert!(depth >= fish.kind.min_depth && depth <= fish.kind.max_depth);
}

#[test]
fn spawn_many_fish() {
    let mut map = generate(&sample_field(0, 120, 80)).expect("map");
    let types = sample_types();
    let fishes = spawn_fish_population(&mut map, &types, 5).expect("fishes");
    assert_eq!(fishes.len(), 5);
    for f in fishes {
        let depth = map.depth(f.position);
        assert!(depth >= f.kind.min_depth && depth <= f.kind.max_depth);
    }
}

#[test]
fn fish_moves_within_water_bounds() {
    let mut map = generate(&sample_field(0, 120, 80)).expect("map");
    let types = sample_types();
    let mut fish = spawn_fish(&mut map, &types).expect("fish");
    let mut rng = RandomNumberGenerator::seeded(1);
    for _ in 0..20 {
        update_fish(&map, std::slice::from_mut(&mut fish), &mut rng, "Day", Point::new(0, 0))
            .unwrap();
        assert!(fish.position.x >= 0 && fish.position.x < map.width as i32);
        assert!(fish.position.y >= 0 && fish.position.y < map.height as i32);
        let tile = map.tiles[map.idx(fish.position)];
        assert!(matches!(tile, TileKind::ShallowWater | TileKind::DeepWater));
    }
}

#[test]
fn spawn_fails_without_water() {
    let mut map = GameMap::new(5, 5);
    let types = sample_types();
    let res = spawn_fish_population(&mut map, &types, 3);
    assert!(matches!(res, Err(GameError::InvalidOperation)));
}

#[test]
fn spawn_fails_without_water_whatever_the_species() {
    let mut map = GameMap::new(5, 5);
    let none: Vec<FishType> = Vec::new();
    assert!(matches!(
        spawn_fish_population(&mut map, &none, 3),
        Err(GameError::InvalidOperation)
    ));
    assert!(matches!(spawn_fish(&mut map, &none), Err(GameError::InvalidOperation)));
    let weightless = vec![species("GHOST", 0, 1, 0, 10)];
    assert!(matches!(
        spawn_fish_population(&mut map, &weightless, 3),
        Err(GameError::InvalidOperation)
    ));
}

#[test]
fn schooling_moves_fish_closer() {
    let map = water_map(10, 10);
    let ft = species("A", 1000, 1, 0, 10);
    let mut fishes = vec![
        Fish { kind: ft.clone(), position: Point::new(2, 2) },
        Fish { kind: ft.clone(), position: Point::new(5, 2) },
    ];
    let before = (fishes[0].position.x - fishes[1].position.x).abs()
        + (fishes[0].position.y - fishes[1].position.y).abs();
    let mut rng = RandomNumberGenerator::seeded(1);
    update_fish(&map, &mut fishes, &mut rng, "Day", Point::new(0, 0)).unwrap();
    let after = (fishes[0].position.x - fishes[1].position.x).abs()
        + (fishes[0].position.y - fishes[1].position.y).abs();
    assert!(after < before || after == 0);
}

#[test]
fn night_moves_faster() {
    let map = water_map(10, 10);
    let ft = species("A", 1000, 1, 0, 10);
    let mut day_fish = Fish { kind: ft.clone(), position: Point::new(5, 5) };
    let mut night_fish = Fish { kind: ft.clone(), position: Point::new(5, 5) };
    let mut rng_day = RandomNumberGenerator::seeded(1);
    let mut rng_night = RandomNumberGenerator::seeded(1);
    update_fish(
        &map,
        std::slice::from_mut(&mut day_fish),
        &mut rng_day,
        "Day",
        Point::new(0, 0),
    )
    .unwrap();
    update_fish(
        &map,
        std::slice::from_mut(&mut night_fish),
        &mut rng_night,
        "Night",
        Point::new(0, 0),
    )
    .unwrap();
    let day_dist = (day_fish.position.x - 5).abs().max((day_fish.position.y - 5).abs());
    let night_dist = (night_fish.position.x - 5).abs().max((night_fish.position.y - 5).abs());
    assert!(night_dist >= day_dist);
    assert!(night_dist <= 2);
}

#[test]
fn spawned_fish_sit_on_distinct_water_cells_of_suitable_depth() {
    let mut map = generate(&sample_field(3, 80, 50)).expect("map");
    let types = sample_types();
    let fishes = spawn_fish_population(&mut map, &types, 40).expect("fishes");
    assert!(fishes.len() <= 40);
    for (i, f) in fishes.iter().enumerate() {
        assert!(is_water(&map, f.position));
        let depth = map.depth(f.position);
        assert!(depth >= f.kind.min_depth && depth <= f.kind.max_depth);
        assert!(types.iter().any(|t| t.id == f.kind.id));
        for g in &fishes[..i] {
            assert_ne!(f.position, g.position);
        }
    }
}

#[test]
fn spawn_fills_up_when_every_cell_suits() {
    let mut map = water_map(3, 2);
    let types = vec![species("A", 1000, 1, 0, 10), species("B", 1, 1, -5, 5)];
    let few = spawn_fish_population(&mut map, &types, 4).expect("fishes");
    assert_eq!(few.len(), 4);
    let all = spawn_fish_population(&mut map, &types, 10).expect("fishes");
    assert_eq!(all.len(), 6);
    let none = spawn_fish_population(&mut map, &types, 0).expect("fishes");
    assert_eq!(none.len(), 0);
}

#[test]
fn spawn_underfills_when_no_cell_suits() {
    let mut map = water_map(4, 4);
    let types = vec![species("ABYSS", 1000, 1, 50, 60)];
    let fishes = spawn_fish_population(&mut map, &types, 3).expect("fishes");
    assert_eq!(fishes.len(), 0);
    assert!(matches!(spawn_fish(&mut map, &types), Err(GameError::InvalidOperation)));
}

#[test]
fn species_are_picked_by_running_weight() {
    let types = sample_types();
    assert_eq!(sum_rarity(&types), 2500);
    assert_eq!(pick_species(&types, 0), 0);
    assert_eq!(pick_species(&types, 999), 0);
    assert_eq!(pick_species(&types, 1000), 1);
    assert_eq!(pick_species(&types, 1799), 1);
    assert_eq!(pick_species(&types, 1800), 2);
    assert_eq!(pick_species(&types, 2299), 2);
    assert_eq!(pick_species(&types, 2300), 3);
    assert_eq!(pick_species(&types, 2499), 3);
    let skewed = vec![species("NEVER", 0, 1, 0, 1), species("ALWAYS", 5, 1, 0, 1)];
    assert_eq!(pick_species(&skewed, 0), 1);
}

#[test]
fn water_cells_are_listed_row_by_row() {
    let mut map = GameMap::new(3, 2);
    map.tiles[1] = TileKind::ShallowWater;
    map.tiles[3] = TileKind::DeepWater;
    map.tiles[5] = TileKind::ShallowWater;
    map.depths[1] = 3;
    map.depths[3] = 30;
    map.depths[5] = 12;
    let water = water_tiles(&map);
    assert_eq!(water, vec![Point::new(1, 0), Point::new(0, 1), Point::new(2, 1)]);
    let kind = species("A", 1000, 1, 10, 40);
    assert_eq!(depth_candidates(&map, &water, &kind), vec![1, 2]);
}

#[test]
fn fish_follow_nearest_schoolmate() {
    let a = species("A", 1000, 1, 0, 10);
    let b = species("B", 1000, 1, 0, 10);
    let fishes = vec![
        Fish { kind: a.clone(), position: Point::new(5, 5) },
        Fish { kind: b.clone(), position: Point::new(5, 6) },
        Fish { kind: a.clone(), position: Point::new(8, 5) },
        Fish { kind: a.clone(), position: Point::new(5, 3) },
        Fish { kind: a.clone(), position: Point::new(3, 5) },
        Fish { kind: a.clone(), position: Point::new(9, 9) },
    ];
    assert_eq!(find_leader(&fishes, 0), Some(3));
    assert_eq!(find_leader(&fishes, 1), None);
    assert_eq!(find_leader(&fishes, 5), None);
    assert_eq!(find_leader(&fishes, 2), Some(0));
}

#[test]
fn step_is_biased_clamped_and_stays_on_water() {
    let mut map = water_map(10, 10);
    let a = species("A", 1000, 1, 0, 10);
    let lone = vec![Fish { kind: a.clone(), position: Point::new(5, 5) }];
    assert_eq!(step_fish(&map, &lone, 0, 1, -1, 1, Point::new(0, 0)), Point::new(6, 4));
    assert_eq!(step_fish(&map, &lone, 0, 2, -2, 2, Point::new(0, 0)), Point::new(7, 3));
    assert_eq!(step_fish(&map, &lone, 0, 1, 0, 1, Point::new(1, 0)), Point::new(6, 5));
    assert_eq!(step_fish(&map, &lone, 0, -1, 0, 1, Point::new(1, 0)), Point::new(5, 5));
    assert_eq!(step_fish(&map, &lone, 0, 0, 0, 2, Point::new(5, -7)), Point::new(7, 3));
    let pair = vec![
        Fish { kind: a.clone(), position: Point::new(5, 5) },
        Fish { kind: a.clone(), position: Point::new(7, 4) },
    ];
    assert_eq!(step_fish(&map, &pair, 0, 0, 0, 1, Point::new(0, 0)), Point::new(6, 4));
    assert_eq!(step_fish(&map, &pair, 0, -1, 1, 1, Point::new(0, 0)), Point::new(5, 5));
    let corner = vec![Fish { kind: a.clone(), position: Point::new(0, 9) }];
    assert_eq!(step_fish(&map, &corner, 0, -1, 1, 1, Point::new(0, 0)), Point::new(0, 9));
    let idx = map.idx(Point::new(6, 5));
    map.tiles[idx] = TileKind::Land;
    assert_eq!(step_fish(&map, &lone, 0, 1, 0, 1, Point::new(0, 0)), Point::new(5, 5));
    assert_eq!(step_fish(&map, &lone, 0, 1, 1, 1, Point::new(0, 0)), Point::new(6, 6));
}

#[test]
fn night_covers_at_least_the_ground_of_day_for_the_same_step() {
    let map = water_map(10, 10);
    let a = species("A", 1000, 1, 0, 10);
    let lone = vec![Fish { kind: a.clone(), position: Point::new(5, 5) }];
    for sx in -1..=1 {
        for sy in -1..=1 {
            let drift = Point::new(1, 0);
            let day = step_fish(&map, &lone, 0, sx, sy, 1, drift);
            let night = step_fish(&map, &lone, 0, sx, sy, 2, drift);
            assert!((night.x - 5).abs() >= (day.x - 5).abs());
            assert!((night.y - 5).abs() >= (day.y - 5).abs());
        }
    }
}

#[test]
fn population_update_keeps_species_and_count() {
    let map = generate(&sample_field(5, 60, 40)).expect("map");
    let mut owned = generate(&sample_field(5, 60, 40)).expect("map");
    let types = sample_types();
    let mut fishes = spawn_fish_population(&mut owned, &types, 12).expect("fishes");
    let ids: Vec<String> = fishes.iter().map(|f| f.kind.id.clone()).collect();
    let mut rng = RandomNumberGenerator::seeded(42);
    for turn in 0..30 {
        let before: Vec<Point> = fishes.iter().map(|f| f.position).collect();
        let time = if turn % 2 == 0 { "Night" } else { "Dusk" };
        let speed = if turn % 2 == 0 { 2 } else { 1 };
        update_fish(&map, &mut fishes, &mut rng, time, Point::new(-1, 0)).unwrap();
        assert_eq!(fishes.len(), ids.len());
        for (k, f) in fishes.iter().enumerate() {
            assert_eq!(f.kind.id, ids[k]);
            assert!(is_water(&map, f.position));
            assert!((f.position.x - before[k].x).abs() <= speed);
            assert!((f.position.y - before[k].y).abs() <= speed);
        }
    }
}
