use lurhook::codex::Codex;
use lurhook::common::GameError;
use lurhook::data::{FightStyle, ItemKind};
use lurhook::data_text::{parse_fish_json, parse_item_json, read_fixed};
use lurhook::keys::{InputConfig, Key};
use lurhook::keys_text::{key_name, parse_key};
use lurhook::save::{parse_snapshot, Snapshot};
use lurhook::common::Point;
use lurhook::scan::{
    chars_of, find_in, read_integer, split_span, strip_span, trim_span, whole, Class, Span,
};
use lurhook::text::int_text;

fn piece(text: &[char], span: Span) -> String {
    text[span.start..span.end].iter().collect()
}

fn parse_error(e: GameError) -> String {
    match e {
        GameError::Parse(msg) => msg,
        other => panic!("not a parse error: {:?}", other),
    }
}

#[test]
fn parse_failure_when_empty() {
    let res = parse_fish_json("");
    assert!(matches!(res, Err(GameError::InvalidOperation)));
}

#[test]
fn parse_simple_data() {
    let json = "[\n  {\n    \"id\": \"A\",\n    \"name\": \"A\",\n    \"rarity\": 1.0,\n    \"strength\": 1,\n    \"min_depth\": 0,\n    \"max_depth\": 1,\n    \"fight_style\": \"Aggressive\",\n    \"legendary\": true\n  }\n]";
    let fishes = parse_fish_json(json).expect("fishes");
    assert_eq!(fishes.len(), 1);
    assert_eq!(fishes[0].id, "A");
    assert_eq!(fishes[0].fight_style, FightStyle::Aggressive);
    assert!(fishes[0].legendary);
    assert_eq!(fishes[0].rarity, 1000);
    assert_eq!(fishes[0].strength, 1);
    assert_eq!(fishes[0].max_depth, 1);
}

#[test]
fn parse_item_simple() {
    let json = "[\n  {\n    \"id\": \"I\",\n    \"name\": \"Item\",\n    \"kind\": \"Reel\",\n    \"tension_bonus\": 5,\n    \"reel_factor\": 1.5,\n    \"bite_bonus\": 0.1\n  }\n]";
    let items = parse_item_json(json).expect("items");
    assert_eq!(items.len(), 1);
    assert_eq!(items[0].tension_bonus, 5);
    assert_eq!(items[0].bite_bonus, 100);
    assert_eq!(items[0].kind, ItemKind::Reel);
    assert_eq!(items[0].reel_factor, 1500);
    assert_eq!(items[0].name, "Item");
}

#[test]
fn parse_several_records_with_defaults() {
    let json = "[{\r\n \"id\": \"EEL\",\r\n \"name\": Long Eel ,\r\n \"rarity\": 0.25,\n \"fight_style\": \"Evasive\",\n \"unknown\": 7,\n \"min_depth\": -3,\n \"max_depth\": x\n},\n{ \"name\": \"nameless\" },\n{\n\"id\": \"TUNA\"\n\"strength\": +12\n\"fight_style\": \"Endurance\"\n\"legendary\": 1\n\"rarity\": -2\n} trailing";
    let fishes = parse_fish_json(json).expect("fishes");
    assert_eq!(fishes.len(), 2);
    assert_eq!(fishes[0].id, "EEL");
    assert_eq!(fishes[0].name, "Long Eel");
    assert_eq!(fishes[0].rarity, 250);
    assert_eq!(fishes[0].strength, 0);
    assert_eq!(fishes[0].min_depth, -3);
    assert_eq!(fishes[0].max_depth, 0);
    assert_eq!(fishes[0].fight_style, FightStyle::Evasive);
    assert!(!fishes[0].legendary);
    assert_eq!(fishes[1].id, "TUNA");
    assert_eq!(fishes[1].name, "");
    assert_eq!(fishes[1].strength, 12);
    assert_eq!(fishes[1].fight_style, FightStyle::Endurance);
    assert!(fishes[1].legendary);
    assert_eq!(fishes[1].rarity, 0);
}

#[test]
fn parse_reports_line_without_colon() {
    let json = "{\n \"id\": \"A\",\n  oops ,\n \"name\": \"B\"\n}";
    assert_eq!(parse_error(parse_fish_json(json).unwrap_err()), "oops ");
    assert_eq!(parse_error(parse_item_json(json).unwrap_err()), "oops ");
    assert!(matches!(parse_item_json("[]"), Err(GameError::InvalidOperation)));
    assert!(matches!(parse_item_json("{ \"name\": \"x\" }"), Err(GameError::InvalidOperation)));
}

#[test]
fn item_defaults_and_kinds() {
    let json = "{\n\"id\": \"a\"\n}\n{\n\"id\": \"b\",\n\"kind\": \"Food\",\n\"reel_factor\": fast,\n\"bite_bonus\": -0.05\n}\n{\n\"id\": \"c\",\n\"kind\": \"Lure\"\n}\n{\n\"id\": \"d\",\n\"kind\": \"Net\"\n}";
    let items = parse_item_json(json).expect("items");
    assert_eq!(items.len(), 4);
    assert_eq!(items[0].kind, ItemKind::Rod);
    assert_eq!(items[0].reel_factor, 1000);
    assert_eq!(items[0].bite_bonus, 0);
    assert_eq!(items[1].kind, ItemKind::Food);
    assert_eq!(items[1].reel_factor, 1000);
    assert_eq!(items[1].bite_bonus, -50);
    assert_eq!(items[2].kind, ItemKind::Lure);
    assert_eq!(items[3].kind, ItemKind::Rod);
}

#[test]
fn fixed_point_numbers_are_read_in_thousandths() {
    let read = |s: &str| {
        let text = chars_of(s);
        read_fixed(&text, whole(&text), -1_000_000, 1_000_000, 777)
    };
    assert_eq!(read("1"), 1000);
    assert_eq!(read("1."), 1000);
    assert_eq!(read(".5"), 500);
    assert_eq!(read("0.05"), 50);
    assert_eq!(read("0.0004"), 0);
    assert_eq!(read("0.0005"), 1);
    assert_eq!(read("2.34567"), 2346);
    assert_eq!(read("-1.25"), -1250);
    assert_eq!(read("+3.2"), 3200);
    assert_eq!(read("999.9996"), 1_000_000);
    assert_eq!(read("1000.001"), 777);
    assert_eq!(read(""), 777);
    assert_eq!(read("."), 777);
    assert_eq!(read("-"), 777);
    assert_eq!(read("1.2.3"), 777);
    assert_eq!(read("1e3"), 777);
    assert_eq!(read("99999999999999999999999"), 777);
}

#[test]
fn integers_are_read_with_sign_and_bounds() {
    let read = |s: &str| {
        let text = chars_of(s);
        read_integer(&text, whole(&text), i32::MIN as i64, i32::MAX as i64)
    };
    assert_eq!(read("0"), Some(0));
    assert_eq!(read("-0"), Some(0));
    assert_eq!(read("+17"), Some(17));
    assert_eq!(read("007"), Some(7));
    assert_eq!(read("2147483647"), Some(2147483647));
    assert_eq!(read("2147483648"), None);
    assert_eq!(read("-2147483648"), Some(-2147483648));
    assert_eq!(read("-2147483649"), None);
    assert_eq!(read("123456789012345678901234567890"), None);
    assert_eq!(read(""), None);
    assert_eq!(read("-"), None);
    assert_eq!(read("1 2"), None);
    assert_eq!(read("12a"), None);
    for v in [0, 7, -7, 10, 1234567890, i32::MAX, i32::MIN] {
        let text = int_text(v);
        assert_eq!(text, format!("{}", v));
        assert_eq!(read(&text), Some(v as i64));
    }
}

#[test]
fn scanning_trims_splits_and_finds() {
    let text = chars_of(" \t\"a,b\" ,, c\u{3000}\n");
    let all = whole(&text);
    let trimmed = trim_span(&text, all);
    assert_eq!(piece(&text, trimmed), "\"a,b\" ,, c");
    let parts = split_span(&text, trimmed, ',');
    let parts: Vec<String> = parts.iter().map(|p| piece(&text, *p)).collect();
    assert_eq!(parts, vec!["\"a", "b\" ", "", " c"]);
    let quoted = chars_of("\"\"x\"y\"\"\"");
    let inner = strip_span(&quoted, whole(&quoted), Class::Is('"'));
    assert_eq!(piece(&quoted, inner), "x\"y");
    let blank = chars_of("   ");
    let none = trim_span(&blank, whole(&blank));
    assert_eq!(none.start, none.end);
    let hay = chars_of("abcabcd");
    assert_eq!(find_in(&hay, whole(&hay), &chars_of("abcd")), Some(3));
    assert_eq!(find_in(&hay, whole(&hay), &chars_of("bc")), Some(1));
    assert_eq!(find_in(&hay, whole(&hay), &chars_of("")), Some(0));
    assert_eq!(find_in(&hay, whole(&hay), &chars_of("cb")), None);
    assert_eq!(find_in(&hay, Span { start: 2, end: 7 }, &chars_of("bc")), Some(4));
    let one = chars_of("abc");
    assert_eq!(split_span(&one, whole(&one), ',').len(), 1);
    let empty = chars_of("");
    assert_eq!(split_span(&empty, whole(&empty), ',').len(), 1);
}

#[test]
fn snapshot_text_is_parsed_field_by_field() {
    let text = "(player:(pos:(x:12, y: -3 ), hp:9, hunger:55, food:2), time_of_day:\"Dusk\")";
    assert_eq!(
        parse_snapshot(text).unwrap(),
        Snapshot { pos: Point::new(12, -3), hp: 9, hunger: 55, canned_food: 2, time: 2 }
    );
    let err = |s: &str| parse_error(parse_snapshot(s).unwrap_err());
    assert_eq!(err(""), "missing x:");
    assert_eq!(err("x:1,"), "missing y:");
    assert_eq!(err("x:1"), "malformed x:");
    assert_eq!(err("x:one, y:2,"), "invalid x:");
    assert_eq!(err("x:1, y:2) hp:99999999999,"), "invalid hp:");
    assert_eq!(err("x:1, y:2, hp:3, hunger:4)"), "missing food:");
    assert_eq!(err("x:1, y:2, hp:3, hunger:4, food:5)"), "missing time_of_day:");
    assert_eq!(err("x:1, y:2, hp:3, hunger:4, food:5, time_of_day:Day"), "malformed time_of_day:");
    assert_eq!(
        err("x:1, y:2, hp:3, hunger:4, food:5, time_of_day:\"Day"),
        "malformed time_of_day:"
    );
    assert_eq!(
        err("x:1, y:2, hp:3, hunger:4, food:5, time_of_day:\"Noon\""),
        "invalid time_of_day Noon"
    );
    let times = ["Dawn", "Day", "Dusk", "Night"];
    for (k, t) in times.iter().enumerate() {
        let s = format!("x:1, y:2, hp:3, hunger:4, food:5, time_of_day:\"{}\"", t);
        assert_eq!(parse_snapshot(&s).unwrap().time, k as u32);
    }
}

#[test]
fn record_and_load() {
    let mut c = Codex::default();
    c.record_capture("A");
    let text = c.to_text();
    assert_eq!(text, "{\n  \"A\": 1\n}");
    let loaded = Codex::from_text(&text).unwrap();
    assert_eq!(loaded.count("A"), 1);
}

#[test]
fn codex_text_round_trip_and_faults() {
    assert_eq!(Codex::new().to_text(), "{\n}");
    let mut c = Codex::new();
    c.set_count("TUNA", 12);
    c.set_count("EEL", 0);
    c.record_capture("BASS");
    let text = c.to_text();
    assert_eq!(text, "{\n  \"TUNA\": 12,\n  \"EEL\": 0,\n  \"BASS\": 1\n}");
    let loaded = Codex::from_text(&text).unwrap();
    assert_eq!(loaded.count("TUNA"), 12);
    assert_eq!(loaded.count("EEL"), 0);
    assert_eq!(loaded.count("BASS"), 1);
    assert_eq!(loaded.total_captures(), 13);
    let empty = Codex::from_text("").unwrap();
    assert_eq!(empty.total_captures(), 0);
    let odd = Codex::from_text(" {{ \"A\" : 2 , B: x,, \"A\": 5 , C : 07 }} ").unwrap();
    assert_eq!(odd.count("A"), 5);
    assert_eq!(odd.count("B"), 0);
    assert_eq!(odd.count("C"), 7);
    assert_eq!(odd.total_captures(), 12);
    assert_eq!(parse_error(Codex::from_text("{ \"A\": 1, oops }").unwrap_err()), "oops");
    assert_eq!(
        parse_error(Codex::from_text("{ A: 4294967295, B: 1 }").unwrap_err()),
        "B"
    );
    let full = Codex::from_text("{ A: 4294967295, A: 3, B: 4294967292 }").unwrap();
    assert_eq!(full.total_captures(), u32::MAX);
}

#[test]
fn load_nonexistent_returns_default() {
    let cfg = InputConfig::from_text("");
    assert_eq!(cfg.cast, Key::C);
    assert_eq!(cfg.eat, Key::X);
    assert_eq!(cfg.cook, Key::F);
    assert_eq!(cfg.snack, Key::G);
    assert_eq!(cfg.help, Key::F1);
    assert_eq!(cfg.options, Key::O);
    assert!(!cfg.colorblind);
    assert_eq!(cfg, InputConfig::default());
}

#[test]
fn load_overrides_fields() {
    let cfg = InputConfig::from_text("cast = \"X\"\neat = \"E\"\ncook = \"G\"\nsnack = \"H\"\n");
    assert_eq!(cfg.cast, Key::X);
    assert_eq!(cfg.eat, Key::E);
    assert_eq!(cfg.cook, Key::G);
    assert_eq!(cfg.snack, Key::H);
    assert!(!cfg.colorblind);
}

#[test]
fn load_colorblind_flag() {
    let cfg = InputConfig::from_text("colorblind = true\n");
    assert!(cfg.colorblind);
    assert!(!InputConfig::from_text("colorblind = yes\n").colorblind);
    assert!(!InputConfig::from_text("colorblind = true\ncolorblind = false").colorblind);
}

#[test]
fn help_key_parsed() {
    let cfg = InputConfig::from_text("help = \"F1\"\n");
    assert_eq!(cfg.help, Key::F1);
}

#[test]
fn options_key_parsed() {
    let cfg = InputConfig::from_text("options = \"O\"\n");
    assert_eq!(cfg.options, Key::O);
}

#[test]
fn save_round_trip() {
    let cfg = InputConfig::default();
    let text = cfg.to_text();
    let loaded = InputConfig::from_text(&text);
    assert_eq!(loaded.left, cfg.left);
    assert_eq!(loaded.colorblind, cfg.colorblind);
    assert_eq!(loaded, cfg);
    let mut other = InputConfig::default();
    other.left = Key::Left;
    other.down_right = Key::PageDown;
    other.quit = Key::Return;
    other.colorblind = true;
    other.volume = 0;
    other.font_scale = 4;
    assert!(other.can_save());
    assert_eq!(InputConfig::from_text(&other.to_text()), other);
    other.cast = Key::Z;
    assert!(!other.can_save());
}

#[test]
fn font_scale_persists() {
    let mut cfg = InputConfig::default();
    cfg.font_scale = 2;
    let loaded = InputConfig::from_text(&cfg.to_text());
    assert_eq!(loaded.font_scale, 2);
}

#[test]
fn config_text_has_one_line_per_setting() {
    let text = InputConfig::default().to_text();
    let lines: Vec<&str> = text.lines().collect();
    assert_eq!(lines.len(), 24);
    assert_eq!(lines[0], "left = \"H\"");
    assert_eq!(lines[8], "cast = \"C\"");
    assert_eq!(lines[17], "scroll_up = \"PageUp\"");
    assert_eq!(lines[20], "options = \"O\"");
    assert_eq!(lines[21], "colorblind = false");
    assert_eq!(lines[22], "volume = 5");
    assert_eq!(lines[23], "font_scale = 1");
}

#[test]
fn config_lines_are_read_leniently() {
    let text = "# bindings\n\n  LEFT = \"a\"\nleft = \"pageup\"\r\nright=RETURN\nup = \"?\"\nnothing\nvolume = 11\nvolume = 300\nfont_scale = \"3\"\njump = \"J\"\n = \"K\"\ncast = \"z\"";
    let cfg = InputConfig::from_text(text);
    let mut expected = InputConfig::default();
    expected.left = Key::PageUp;
    expected.right = Key::Return;
    expected.volume = 11;
    expected.font_scale = 3;
    assert_eq!(cfg, expected);
}

#[test]
fn keys_have_names() {
    let named = [
        (Key::Left, "Left"),
        (Key::Right, "Right"),
        (Key::Up, "Up"),
        (Key::Down, "Down"),
        (Key::Y, "Y"),
        (Key::U, "U"),
        (Key::H, "H"),
        (Key::J, "J"),
        (Key::K, "K"),
        (Key::L, "L"),
        (Key::B, "B"),
        (Key::N, "N"),
        (Key::C, "C"),
        (Key::F, "F"),
        (Key::G, "G"),
        (Key::X, "X"),
        (Key::E, "E"),
        (Key::R, "R"),
        (Key::I, "I"),
        (Key::S, "S"),
        (Key::Q, "Q"),
        (Key::Return, "Return"),
        (Key::PageUp, "PageUp"),
        (Key::PageDown, "PageDown"),
        (Key::F1, "F1"),
        (Key::O, "O"),
    ];
    for (key, name) in named {
        assert_eq!(key_name(key), name);
        for text in [name.to_string(), name.to_lowercase(), name.to_uppercase()] {
            let chars = chars_of(&text);
            assert_eq!(parse_key(&chars, whole(&chars)), Some(key));
        }
    }
    for text in ["", "z", "esc", "f2", "lefty", "\u{212A}"] {
        let chars = chars_of(text);
        assert_eq!(parse_key(&chars, whole(&chars)), None);
    }
}
