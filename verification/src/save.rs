//! The snapshot of a session that is kept between runs, and its text.

use crate::common::{GameError, GameResult, Point};
use crate::game::{Assets, LurhookGame};
use crate::scan::{
    chars_of, find, find_char, find_in, index_of, integer_within, is_digit, read_integer,
    span_is, starts_with, strip_end, strip_start, Class,
    span_string, trim, trim_span, whole, Span,
};
use crate::text::{decimal, push_decimal};
use crate::types::Player;
use vstd::prelude::*;
use vstd::string::StringExecFns;

verus! {

/// What is kept of a session between runs.
#[derive(Clone, Copy, Debug, PartialEq, Eq, Structural)]
pub struct Snapshot {
    pub pos: Point,
    pub hp: i32,
    pub hunger: i32,
    pub canned_food: i32,
    /// Index of the time of day, from dawn on.
    pub time: u32,
}

/// The snapshot text up to the field `y:`.
pub open spec fn upto_y(pos: Point) -> Seq<char> {
    "(player:(pos:("@ + "x:"@ + decimal(pos.x as int) + ", "@
}

/// The snapshot text up to the field `hp:`.
pub open spec fn upto_hp(pos: Point) -> Seq<char> {
    upto_y(pos) + "y:"@ + decimal(pos.y as int) + "), "@
}

/// The snapshot text up to the field `hunger:`.
pub open spec fn upto_hunger(pos: Point, hp: int) -> Seq<char> {
    upto_hp(pos) + "hp:"@ + decimal(hp) + ", "@
}

/// The snapshot text up to the field `food:`.
pub open spec fn upto_food(pos: Point, hp: int, hunger: int) -> Seq<char> {
    upto_hunger(pos, hp) + "hunger:"@ + decimal(hunger) + ", "@
}

/// The snapshot text up to the field `time_of_day:`.
pub open spec fn upto_time(pos: Point, hp: int, hunger: int, food: int) -> Seq<char> {
    upto_food(pos, hp, hunger) + "food:"@ + decimal(food) + "), "@
}

/// The text of a snapshot: the player's position, hit points, hunger and
/// cans of food as decimal numbers, and the time of day in double
/// quotes, each under its key.
pub open spec fn snapshot_text(
    pos: Point,
    hp: int,
    hunger: int,
    food: int,
    time_of_day: Seq<char>,
) -> Seq<char> {
    upto_time(pos, hp, hunger, food) + "time_of_day:"@ + "\""@ + time_of_day + "\""@ + ")"@
}

/// Where a field of the snapshot text ends: at the first comma or closing
/// bracket, or at the end of the text where there is neither.
pub open spec fn field_end(s: Seq<char>) -> int {
    if index_of(s, ',') <= index_of(s, ')') {
        index_of(s, ',')
    } else {
        index_of(s, ')')
    }
}

/// The number in the field named `key` of a snapshot text, or what is
/// wrong with the field. The field begins after the first occurrence of
/// its name and ends at the next comma or closing bracket; white space
/// around the number does not count.
pub open spec fn number_field(data: Seq<char>, key: Seq<char>) -> Result<int, Seq<char>> {
    match find(data, key) {
        None => Err("missing "@ + key),
        Some(at) => {
            let rest = data.skip(at + key.len());
            let end = field_end(rest);
            if end >= rest.len() {
                Err("malformed "@ + key)
            } else {
                match integer_within(trim(rest.take(end)), i32::MIN as int, i32::MAX as int) {
                    Some(v) => Ok(v),
                    None => Err("invalid "@ + key),
                }
            }
        },
    }
}

/// The text between the first pair of double quotes in the field named
/// `key` of a snapshot text, or what is wrong with the field.
pub open spec fn quoted_field(data: Seq<char>, key: Seq<char>) -> Result<Seq<char>, Seq<char>> {
    match find(data, key) {
        None => Err("missing "@ + key),
        Some(at) => {
            let rest = data.skip(at + key.len());
            let open = index_of(rest, '"');
            if open >= rest.len() {
                Err("malformed "@ + key)
            } else {
                let inner = rest.skip(open + 1);
                let close = index_of(inner, '"');
                if close >= inner.len() {
                    Err("malformed "@ + key)
                } else {
                    Ok(inner.take(close))
                }
            }
        },
    }
}

/// The index of a time of day by its label.
pub open spec fn time_index(label: Seq<char>) -> Option<int> {
    if label == "Dawn"@ {
        Some(0)
    } else if label == "Day"@ {
        Some(1)
    } else if label == "Dusk"@ {
        Some(2)
    } else if label == "Night"@ {
        Some(3)
    } else {
        None
    }
}

/// What a snapshot text holds, or what is wrong with it. The fields are
/// read in the order x, y, hp, hunger, food and time of day, and the
/// first that fails is reported.
pub open spec fn snapshot_of(data: Seq<char>) -> Result<Snapshot, Seq<char>> {
    match number_field(data, "x:"@) {
        Err(e) => Err(e),
        Ok(x) => match number_field(data, "y:"@) {
            Err(e) => Err(e),
            Ok(y) => match number_field(data, "hp:"@) {
                Err(e) => Err(e),
                Ok(hp) => match number_field(data, "hunger:"@) {
                    Err(e) => Err(e),
                    Ok(hunger) => match number_field(data, "food:"@) {
                        Err(e) => Err(e),
                        Ok(food) => match quoted_field(data, "time_of_day:"@) {
                            Err(e) => Err(e),
                            Ok(label) => match time_index(label) {
                                None => Err("invalid time_of_day "@ + label),
                                Some(time) => Ok(
                                    Snapshot {
                                        pos: Point { x: x as i32, y: y as i32 },
                                        hp: hp as i32,
                                        hunger: hunger as i32,
                                        canned_food: food as i32,
                                        time: time as u32,
                                    },
                                ),
                            },
                        },
                    },
                },
            },
        },
    }
}

/// An error about a field: what is wrong, and the field's name.
fn field_error(what: &str, key: &str) -> (e: GameError)
    ensures
        e matches GameError::Parse(msg) && msg@ == what@ + key@,
{
    GameError::Parse(String::from_str(what).concat(key))
}

/// Finds what follows the first occurrence of `key` in a text.
fn after_key(text: &Vec<char>, key: &str) -> (r: Option<Span>)
    ensures
        match r {
            Some(rest) => {
                &&& rest.within(text@.len())
                &&& rest.end == text@.len()
                &&& find(text@, key@) matches Some(at) && rest.of(text@) == text@.skip(
                    at + key@.len(),
                )
            },
            None => find(text@, key@).is_none(),
        },
{
    let name = chars_of(key);
    match find_in(text, whole(text), &name) {
        Some(at) => {
            let rest = Span { start: at + name.len(), end: text.len() };
            assert(rest.of(text@) =~= text@.skip(at + name@.len()));
            Some(rest)
        },
        None => None,
    }
}

/// Reads the number in the field named `key` of a snapshot text.
pub fn parse_i32(text: &Vec<char>, key: &str) -> (r: GameResult<i32>)
    ensures
        match r {
            Ok(v) => number_field(text@, key@) == Ok::<int, Seq<char>>(v as int),
            Err(e) => e matches GameError::Parse(msg) && number_field(text@, key@) == Err::<
                int,
                Seq<char>,
            >(msg@),
        },
{
    let rest = match after_key(text, key) {
        Some(rest) => rest,
        None => {
            return Err(field_error("missing ", key));
        },
    };
    let comma = find_char(text, rest, ',');
    let bracket = find_char(text, rest, ')');
    let end = if comma <= bracket {
        comma
    } else {
        bracket
    };
    if end >= rest.end {
        return Err(field_error("malformed ", key));
    }
    let field = Span { start: rest.start, end };
    assert(field.of(text@) =~= rest.of(text@).take(end - rest.start));
    let inner = trim_span(text, field);
    match read_integer(text, inner, i32::MIN as i64, i32::MAX as i64) {
        Some(v) => Ok(v as i32),
        None => Err(field_error("invalid ", key)),
    }
}

/// Finds the text between the first pair of double quotes in the field
/// named `key` of a snapshot text.
pub fn parse_str(text: &Vec<char>, key: &str) -> (r: GameResult<Span>)
    ensures
        match r {
            Ok(span) => span.within(text@.len()) && quoted_field(text@, key@) == Ok::<
                Seq<char>,
                Seq<char>,
            >(span.of(text@)),
            Err(e) => e matches GameError::Parse(msg) && quoted_field(text@, key@) == Err::<
                Seq<char>,
                Seq<char>,
            >(msg@),
        },
{
    let rest = match after_key(text, key) {
        Some(rest) => rest,
        None => {
            return Err(field_error("missing ", key));
        },
    };
    let open = find_char(text, rest, '"');
    if open >= rest.end {
        return Err(field_error("malformed ", key));
    }
    let inner = Span { start: open + 1, end: text.len() };
    assert(inner.of(text@) =~= rest.of(text@).skip(open - rest.start + 1));
    let close = find_char(text, inner, '"');
    if close >= inner.end {
        return Err(field_error("malformed ", key));
    }
    let span = Span { start: inner.start, end: close };
    assert(span.of(text@) =~= inner.of(text@).take(close - inner.start));
    Ok(span)
}

/// Reads a snapshot from its text.
pub fn parse_snapshot(data: &str) -> (r: GameResult<Snapshot>)
    ensures
        match r {
            Ok(snapshot) => snapshot_of(data@) == Ok::<Snapshot, Seq<char>>(snapshot),
            Err(e) => e matches GameError::Parse(msg) && snapshot_of(data@) == Err::<
                Snapshot,
                Seq<char>,
            >(msg@),
        },
{
    let text = chars_of(data);
    let x = parse_i32(&text, "x:")?;
    let y = parse_i32(&text, "y:")?;
    let hp = parse_i32(&text, "hp:")?;
    let hunger = parse_i32(&text, "hunger:")?;
    let food = parse_i32(&text, "food:")?;
    let label = parse_str(&text, "time_of_day:")?;
    proof {
        reveal_strlit("Dawn");
        reveal_strlit("Day");
        reveal_strlit("Dusk");
        reveal_strlit("Night");
    }
    let time: u32 = if span_is(&text, label, "Dawn") {
        0
    } else if span_is(&text, label, "Day") {
        1
    } else if span_is(&text, label, "Dusk") {
        2
    } else if span_is(&text, label, "Night") {
        3
    } else {
        let other = span_string(data, &text, label);
        return Err(
            GameError::Parse(String::from_str("invalid time_of_day ").concat(other.as_str())),
        );
    };
    Ok(Snapshot { pos: Point::new(x, y), hp, hunger, canned_food: food, time })
}

impl LurhookGame {
    /// The text of the snapshot of the session.
    pub fn save_text(&self) -> (s: String)
        ensures
            s@ == snapshot_text(
                self.player.pos,
                self.player.hp as int,
                self.player.hunger as int,
                self.player.canned_food as int,
                self.time_of_day@,
            ),
    {
        let mut s = String::from_str("(player:(pos:(");
        s.append("x:");
        push_decimal(&mut s, self.player.pos.x);
        s.append(", ");
        s.append("y:");
        push_decimal(&mut s, self.player.pos.y);
        s.append("), ");
        s.append("hp:");
        push_decimal(&mut s, self.player.hp);
        s.append(", ");
        s.append("hunger:");
        push_decimal(&mut s, self.player.hunger);
        s.append(", ");
        s.append("food:");
        push_decimal(&mut s, self.player.canned_food);
        s.append("), ");
        s.append("time_of_day:");
        s.append("\"");
        s.append(self.time_of_day);
        s.append("\"");
        s.append(")");
        s
    }

    /// Whether `game` is the session `fresh` with a snapshot put into it:
    /// the player is where he was, fares as he did, and the time of day
    /// is what it was.
    pub open spec fn restored(game: LurhookGame, fresh: LurhookGame, snapshot: Snapshot) -> bool {
        &&& game.time_of_day@ == crate::game::time_label(snapshot.time as int)
        &&& game == (LurhookGame {
            player: Player {
                pos: snapshot.pos,
                hp: snapshot.hp,
                hunger: snapshot.hunger,
                canned_food: snapshot.canned_food,
                ..fresh.player
            },
            time_of_day: game.time_of_day,
            ..fresh
        })
    }

    /// Starts a session on the coast with seed 0 at normal difficulty
    /// and puts the snapshot of the text `data` into it. Fails as
    /// starting a session does, and with a parse error that names the
    /// first field of the text that is missing or wrong. The session is
    /// in order if the snapshot has the player on the map.
    pub fn load_game(data: &str, assets: Assets) -> (r: GameResult<Self>)
        requires
            crate::game::field_fits(assets.terrain, crate::types::Area::Coast, 0),
            assets.charts.wf_for(crate::types::Area::Coast, 0),
            assets.codex.wf(),
            assets.fish_types@.len() > 0 ==> crate::ecology::sampleable(assets.fish_types@),
        ensures
            match r {
                Ok(game) => exists|fresh: LurhookGame, snapshot: Snapshot|
                    {
                        &&& #[trigger] Self::restored(game, fresh, snapshot)
                        &&& Self::started(
                            fresh,
                            0,
                            crate::game::Difficulty::Normal,
                            crate::types::Area::Coast,
                            assets,
                        )
                        &&& snapshot_of(data@) == Ok::<Snapshot, Seq<char>>(snapshot)
                        &&& game.map.in_bounds(snapshot.pos) ==> game.wf()
                    },
                Err(GameError::InvalidOperation) => assets.fish_types@.len() == 0
                    || assets.items@.len() == 0 || !crate::game::gives_water(
                    assets.terrain.samples@,
                ),
                Err(GameError::Parse(msg)) => snapshot_of(data@) == Err::<Snapshot, Seq<char>>(
                    msg@,
                ),
                Err(GameError::Io(_)) => false,
            },
    {
        let mut game = Self::new(0, assets)?;
        let ghost fresh = game;
        let snapshot = parse_snapshot(data)?;
        game.player.pos = snapshot.pos;
        game.player.hp = snapshot.hp;
        game.player.hunger = snapshot.hunger;
        game.player.canned_food = snapshot.canned_food;
        game.time_of_day = crate::game::time_name(snapshot.time);
        assert(Self::restored(game, fresh, snapshot));
        Ok(game)
    }
}

/// A text that stands at `at` in another, where nothing before it there
/// begins as it does, first occurs at `at`.
pub proof fn lemma_find_first(s: Seq<char>, p: Seq<char>, at: int)
    requires
        p.len() >= 2,
        0 <= at,
        at + p.len() <= s.len(),
        s.subrange(at, at + p.len()) == p,
        forall|j: int| 0 <= j < at ==> (#[trigger] s[j]) != p[0] || s[j + 1] != p[1],
    ensures
        find(s, p) == Some(at),
    decreases at,
{
    if at == 0 {
        assert(s.take(p.len() as int) =~= s.subrange(0, p.len() as int));
    } else {
        let rest = s.drop_first();
        assert(rest.subrange(at - 1, at - 1 + p.len()) =~= s.subrange(at, at + p.len()));
        assert forall|j: int| 0 <= j < at - 1 implies (#[trigger] rest[j]) != p[0] || rest[j + 1]
            != p[1] by {
            assert(rest[j] == s[j + 1]);
            assert(rest[j + 1] == s[j + 2]);
        }
        lemma_find_first(rest, p, at - 1);
        if starts_with(s, p) {
            assert(s.take(p.len() as int)[0] == p[0]);
            assert(s.take(p.len() as int)[1] == p[1]);
        }
    }
}

/// Whether a character can occur in the decimal text of an integer.
pub open spec fn numeric(c: char) -> bool {
    is_digit(c) || c == '-'
}

/// Whether no place in a text begins as a key with the first characters
/// `c0` and `c1` does: wherever `c0` stands, something other than `c1`
/// follows.
pub open spec fn clear_of(s: Seq<char>, c0: char, c1: char) -> bool {
    forall|j: int|
        0 <= j < s.len() ==> (#[trigger] s[j]) != c0 || (j + 1 < s.len() && s[j + 1] != c1)
}

/// Two texts that are clear of a key are clear of it when put together.
pub proof fn lemma_clear_concat(a: Seq<char>, b: Seq<char>, c0: char, c1: char)
    requires
        clear_of(a, c0, c1),
        clear_of(b, c0, c1),
    ensures
        clear_of(a + b, c0, c1),
{
    assert forall|j: int| 0 <= j < (a + b).len() implies (#[trigger] (a + b)[j]) != c0 || (j + 1 < (
    a + b).len() && (a + b)[j + 1] != c1) by {
        if j < a.len() {
            assert((a + b)[j] == a[j]);
            if a[j] == c0 {
                assert((a + b)[j + 1] == a[j + 1]);
            }
        } else {
            assert((a + b)[j] == b[j - a.len()]);
            if b[j - a.len()] == c0 {
                assert((a + b)[j + 1] == b[j + 1 - a.len()]);
            }
        }
    }
}

/// The decimal text of an integer is made of digits and the minus sign.
pub proof fn lemma_decimal_numeric(v: int)
    ensures
        decimal(v).len() >= 1,
        forall|i: int| 0 <= i < decimal(v).len() ==> numeric(#[trigger] decimal(v)[i]),
{
    if v < 0 {
        crate::scan::lemma_digits_read_back((-v) as nat);
        let d = crate::text::digits((-v) as nat);
        assert forall|i: int| 0 <= i < decimal(v).len() implies numeric(
            #[trigger] decimal(v)[i],
        ) by {
            if i > 0 {
                assert(decimal(v)[i] == d[i - 1]);
                assert(is_digit(d[i - 1]));
            }
        }
    } else {
        crate::scan::lemma_digits_read_back(v as nat);
        assert forall|i: int| 0 <= i < decimal(v).len() implies numeric(
            #[trigger] decimal(v)[i],
        ) by {
            assert(is_digit(crate::text::digits(v as nat)[i]));
        }
    }
}

/// The decimal text of an integer is clear of any key that does not
/// begin with a digit or a minus sign.
pub proof fn lemma_decimal_clear(v: int, c0: char, c1: char)
    requires
        !numeric(c0),
    ensures
        clear_of(decimal(v), c0, c1),
{
    lemma_decimal_numeric(v);
}

/// A key that follows a text that is clear of it first occurs there.
pub proof fn lemma_find_after(pre: Seq<char>, key: Seq<char>, rest: Seq<char>)
    requires
        key.len() >= 2,
        clear_of(pre, key[0], key[1]),
    ensures
        find(pre + key + rest, key) == Some(pre.len() as int),
{
    let s = pre + key + rest;
    let at = pre.len() as int;
    assert(s.subrange(at, at + key.len()) =~= key);
    assert forall|j: int| 0 <= j < at implies (#[trigger] s[j]) != key[0] || s[j + 1] != key[1] by {
        assert(s[j] == pre[j]);
        if pre[j] == key[0] {
            assert(s[j + 1] == pre[j + 1]);
        }
    }
    lemma_find_first(s, key, at);
}

/// A number that was written under a key, after a text that is clear of
/// the key and before a comma or a closing bracket, is read back from
/// the field of that key.
pub proof fn lemma_number_field(pre: Seq<char>, key: Seq<char>, v: int, tail: Seq<char>)
    requires
        key.len() >= 2,
        clear_of(pre, key[0], key[1]),
        i32::MIN <= v <= i32::MAX,
        tail.len() > 0,
        tail[0] == ',' || tail[0] == ')',
    ensures
        number_field(pre + key + decimal(v) + tail, key) == Ok::<int, Seq<char>>(v),
{
    let d = decimal(v);
    let data = pre + key + d + tail;
    assert(data =~= pre + key + (d + tail));
    lemma_find_after(pre, key, d + tail);
    let rest = data.skip((pre.len() + key.len()) as int);
    assert(rest =~= d + tail);
    lemma_decimal_numeric(v);
    let n = d.len() as int;
    assert(rest[n] == tail[0]);
    assert forall|k: int| 0 <= k < n implies rest[k] != ',' && rest[k] != ')' by {
        assert(rest[k] == d[k]);
        assert(numeric(d[k]));
    }
    crate::scan::lemma_index_of(rest, ',');
    crate::scan::lemma_index_of(rest, ')');
    if tail[0] == ',' {
        crate::scan::lemma_index_of_is(rest, ',', n);
    } else {
        crate::scan::lemma_index_of_is(rest, ')', n);
    }
    assert(field_end(rest) == n);
    assert(rest.take(n) =~= d);
    assert(numeric(d[0]) && numeric(d.last()));
    assert(strip_start(d, Class::Space) == d);
    assert(strip_end(d, Class::Space) == d);
    crate::scan::lemma_decimal_reads_back(v);
}

/// A text without double quotes that was written in double quotes under
/// a key, after a text that is clear of the key, is read back from the
/// field of that key.
pub proof fn lemma_quoted_field(pre: Seq<char>, key: Seq<char>, label: Seq<char>, tail: Seq<char>)
    requires
        key.len() >= 2,
        clear_of(pre, key[0], key[1]),
        forall|i: int| 0 <= i < label.len() ==> label[i] != '"',
    ensures
        quoted_field(pre + key + seq!['"'] + label + seq!['"'] + tail, key) == Ok::<
            Seq<char>,
            Seq<char>,
        >(label),
{
    let data = pre + key + seq!['"'] + label + seq!['"'] + tail;
    let after = seq!['"'] + label + seq!['"'] + tail;
    assert(data =~= pre + key + after);
    lemma_find_after(pre, key, after);
    let rest = data.skip((pre.len() + key.len()) as int);
    assert(rest =~= after);
    crate::scan::lemma_index_of_is(rest, '"', 0);
    let inner = rest.skip(1);
    assert(inner =~= label + seq!['"'] + tail);
    assert forall|k: int| 0 <= k < label.len() implies inner[k] != '"' by {
        assert(inner[k] == label[k]);
    }
    assert(inner[label.len() as int] == '"');
    crate::scan::lemma_index_of_is(inner, '"', label.len() as int);
    assert(inner.take(label.len() as int) =~= label);
}

/// The fixed parts of the snapshot text are clear of the keys that
/// follow them.
proof fn lemma_parts_clear()
    ensures
        clear_of("(player:(pos:("@, 'x', ':'),
        clear_of("(player:(pos:("@, 'y', ':'),
        clear_of("x:"@, 'y', ':'),
        clear_of(", "@, 'y', ':'),
        clear_of("(player:(pos:("@, 'h', 'p'),
        clear_of("x:"@, 'h', 'p'),
        clear_of(", "@, 'h', 'p'),
        clear_of("y:"@, 'h', 'p'),
        clear_of("), "@, 'h', 'p'),
        clear_of("(player:(pos:("@, 'h', 'u'),
        clear_of("x:"@, 'h', 'u'),
        clear_of(", "@, 'h', 'u'),
        clear_of("y:"@, 'h', 'u'),
        clear_of("), "@, 'h', 'u'),
        clear_of("hp:"@, 'h', 'u'),
        clear_of("(player:(pos:("@, 'f', 'o'),
        clear_of("x:"@, 'f', 'o'),
        clear_of(", "@, 'f', 'o'),
        clear_of("y:"@, 'f', 'o'),
        clear_of("), "@, 'f', 'o'),
        clear_of("hp:"@, 'f', 'o'),
        clear_of("hunger:"@, 'f', 'o'),
        clear_of("(player:(pos:("@, 't', 'i'),
        clear_of("x:"@, 't', 'i'),
        clear_of(", "@, 't', 'i'),
        clear_of("y:"@, 't', 'i'),
        clear_of("), "@, 't', 'i'),
        clear_of("hp:"@, 't', 'i'),
        clear_of("hunger:"@, 't', 'i'),
        clear_of("food:"@, 't', 'i'),
{
    reveal_strlit("(player:(pos:(");
    reveal_strlit("), ");
    reveal_strlit(", ");
    reveal_strlit("food:");
    reveal_strlit("hp:");
    reveal_strlit("hunger:");
    reveal_strlit("x:");
    reveal_strlit("y:");
}

/// A text that is clear of a key stays clear of it when a field is added:
/// a key and a separator that are clear of it, with a number between
/// them.
proof fn lemma_grow_clear(
    pre: Seq<char>,
    key: Seq<char>,
    v: int,
    sep: Seq<char>,
    c0: char,
    c1: char,
)
    requires
        !numeric(c0),
        clear_of(pre, c0, c1),
        clear_of(key, c0, c1),
        clear_of(sep, c0, c1),
    ensures
        clear_of(pre + key + decimal(v) + sep, c0, c1),
{
    lemma_decimal_clear(v, c0, c1);
    lemma_clear_concat(pre, key, c0, c1);
    lemma_clear_concat(pre + key, decimal(v), c0, c1);
    lemma_clear_concat(pre + key + decimal(v), sep, c0, c1);
}

/// The field `x:` of a snapshot text holds the number that was written
/// in it.
proof fn lemma_field_x(pos: Point, hp: int, hunger: int, food: int, label: Seq<char>)
    ensures
        number_field(snapshot_text(pos, hp, hunger, food, label), "x:"@) == Ok::<int, Seq<char>>(
            pos.x as int,
        ),
{
    lemma_parts_clear();
    reveal_strlit("x:");
    reveal_strlit(", ");
    let tail = ", "@ + "y:"@ + decimal(pos.y as int) + "), "@ + "hp:"@ + decimal(hp) + ", "@
        + "hunger:"@ + decimal(hunger) + ", "@ + "food:"@ + decimal(food) + "), "@
        + "time_of_day:"@ + "\""@ + label + "\""@ + ")"@;
    assert(tail[0] == ", "@[0]);
    assert(snapshot_text(pos, hp, hunger, food, label) =~= "(player:(pos:("@ + "x:"@ + decimal(
        pos.x as int,
    ) + tail);
    lemma_number_field("(player:(pos:("@, "x:"@, pos.x as int, tail);
}

/// The field `y:` of a snapshot text holds the number that was written
/// in it.
proof fn lemma_field_y(pos: Point, hp: int, hunger: int, food: int, label: Seq<char>)
    ensures
        number_field(snapshot_text(pos, hp, hunger, food, label), "y:"@) == Ok::<int, Seq<char>>(
            pos.y as int,
        ),
{
    lemma_parts_clear();
    reveal_strlit("y:");
    reveal_strlit("), ");
    lemma_grow_clear("(player:(pos:("@, "x:"@, pos.x as int, ", "@, 'y', ':');
    let tail = "), "@ + "hp:"@ + decimal(hp) + ", "@ + "hunger:"@ + decimal(hunger) + ", "@
        + "food:"@ + decimal(food) + "), "@ + "time_of_day:"@ + "\""@ + label + "\""@ + ")"@;
    assert(tail[0] == "), "@[0]);
    assert(snapshot_text(pos, hp, hunger, food, label) =~= upto_y(pos) + "y:"@ + decimal(
        pos.y as int,
    ) + tail);
    lemma_number_field(upto_y(pos), "y:"@, pos.y as int, tail);
}

/// The field `hp:` of a snapshot text holds the number that was written
/// in it.
proof fn lemma_field_hp(pos: Point, hp: int, hunger: int, food: int, label: Seq<char>)
    requires
        i32::MIN <= hp <= i32::MAX,
    ensures
        number_field(snapshot_text(pos, hp, hunger, food, label), "hp:"@) == Ok::<int, Seq<char>>(
            hp,
        ),
{
    lemma_parts_clear();
    reveal_strlit("hp:");
    reveal_strlit(", ");
    lemma_grow_clear("(player:(pos:("@, "x:"@, pos.x as int, ", "@, 'h', 'p');
    lemma_grow_clear(upto_y(pos), "y:"@, pos.y as int, "), "@, 'h', 'p');
    let tail = ", "@ + "hunger:"@ + decimal(hunger) + ", "@ + "food:"@ + decimal(food) + "), "@
        + "time_of_day:"@ + "\""@ + label + "\""@ + ")"@;
    assert(tail[0] == ", "@[0]);
    assert(snapshot_text(pos, hp, hunger, food, label) =~= upto_hp(pos) + "hp:"@ + decimal(hp)
        + tail);
    lemma_number_field(upto_hp(pos), "hp:"@, hp, tail);
}

/// The field `hunger:` of a snapshot text holds the number that was
/// written in it.
proof fn lemma_field_hunger(pos: Point, hp: int, hunger: int, food: int, label: Seq<char>)
    requires
        i32::MIN <= hunger <= i32::MAX,
    ensures
        number_field(snapshot_text(pos, hp, hunger, food, label), "hunger:"@) == Ok::<
            int,
            Seq<char>,
        >(hunger),
{
    lemma_parts_clear();
    reveal_strlit("hunger:");
    reveal_strlit(", ");
    lemma_grow_clear("(player:(pos:("@, "x:"@, pos.x as int, ", "@, 'h', 'u');
    lemma_grow_clear(upto_y(pos), "y:"@, pos.y as int, "), "@, 'h', 'u');
    lemma_grow_clear(upto_hp(pos), "hp:"@, hp, ", "@, 'h', 'u');
    let tail = ", "@ + "food:"@ + decimal(food) + "), "@ + "time_of_day:"@ + "\""@ + label + "\""@
        + ")"@;
    assert(tail[0] == ", "@[0]);
    assert(snapshot_text(pos, hp, hunger, food, label) =~= upto_hunger(pos, hp) + "hunger:"@
        + decimal(hunger) + tail);
    lemma_number_field(upto_hunger(pos, hp), "hunger:"@, hunger, tail);
}

/// The field `food:` of a snapshot text holds the number that was
/// written in it.
proof fn lemma_field_food(pos: Point, hp: int, hunger: int, food: int, label: Seq<char>)
    requires
        i32::MIN <= food <= i32::MAX,
    ensures
        number_field(snapshot_text(pos, hp, hunger, food, label), "food:"@) == Ok::<
            int,
            Seq<char>,
        >(food),
{
    lemma_parts_clear();
    reveal_strlit("food:");
    reveal_strlit("), ");
    lemma_grow_clear("(player:(pos:("@, "x:"@, pos.x as int, ", "@, 'f', 'o');
    lemma_grow_clear(upto_y(pos), "y:"@, pos.y as int, "), "@, 'f', 'o');
    lemma_grow_clear(upto_hp(pos), "hp:"@, hp, ", "@, 'f', 'o');
    lemma_grow_clear(upto_hunger(pos, hp), "hunger:"@, hunger, ", "@, 'f', 'o');
    let tail = "), "@ + "time_of_day:"@ + "\""@ + label + "\""@ + ")"@;
    assert(tail[0] == "), "@[0]);
    assert(snapshot_text(pos, hp, hunger, food, label) =~= upto_food(pos, hp, hunger) + "food:"@
        + decimal(food) + tail);
    lemma_number_field(upto_food(pos, hp, hunger), "food:"@, food, tail);
}

/// The field `time_of_day:` of a snapshot text holds the label that was
/// written in it, if the label holds no double quote.
proof fn lemma_field_time(pos: Point, hp: int, hunger: int, food: int, label: Seq<char>)
    requires
        forall|i: int| 0 <= i < label.len() ==> label[i] != '"',
    ensures
        quoted_field(snapshot_text(pos, hp, hunger, food, label), "time_of_day:"@) == Ok::<
            Seq<char>,
            Seq<char>,
        >(label),
{
    lemma_parts_clear();
    reveal_strlit("time_of_day:");
    reveal_strlit("\"");
    lemma_grow_clear("(player:(pos:("@, "x:"@, pos.x as int, ", "@, 't', 'i');
    lemma_grow_clear(upto_y(pos), "y:"@, pos.y as int, "), "@, 't', 'i');
    lemma_grow_clear(upto_hp(pos), "hp:"@, hp, ", "@, 't', 'i');
    lemma_grow_clear(upto_hunger(pos, hp), "hunger:"@, hunger, ", "@, 't', 'i');
    lemma_grow_clear(upto_food(pos, hp, hunger), "food:"@, food, "), "@, 't', 'i');
    assert("\""@ =~= seq!['"']);
    assert(snapshot_text(pos, hp, hunger, food, label) =~= upto_time(pos, hp, hunger, food)
        + "time_of_day:"@ + seq!['"'] + label + seq!['"'] + ")"@);
    lemma_quoted_field(upto_time(pos, hp, hunger, food), "time_of_day:"@, label, ")"@);
}

/// A snapshot that was written is read back as it was.
pub proof fn lemma_snapshot_round_trip(pos: Point, hp: i32, hunger: i32, food: i32, time: u32)
    requires
        time < 4,
    ensures
        snapshot_of(
            snapshot_text(
                pos,
                hp as int,
                hunger as int,
                food as int,
                crate::game::time_label(time as int),
            ),
        ) == Ok::<Snapshot, Seq<char>>(Snapshot { pos, hp, hunger, canned_food: food, time }),
{
    let label = crate::game::time_label(time as int);
    reveal_strlit("Dawn");
    reveal_strlit("Day");
    reveal_strlit("Dusk");
    reveal_strlit("Night");
    assert forall|i: int| 0 <= i < label.len() implies label[i] != '"' by {
        assert(i == 0 || i == 1 || i == 2 || i == 3 || i == 4);
    }
    assert(time_index(label) == Some(time as int)) by {
        assert("Dawn"@.len() == 4 && "Day"@.len() == 3 && "Dusk"@.len() == 4 && "Night"@.len() == 5);
        assert("Dawn"@[1] == 'a' && "Dusk"@[1] == 'u');
    }
    lemma_field_x(pos, hp as int, hunger as int, food as int, label);
    lemma_field_y(pos, hp as int, hunger as int, food as int, label);
    lemma_field_hp(pos, hp as int, hunger as int, food as int, label);
    lemma_field_hunger(pos, hp as int, hunger as int, food as int, label);
    lemma_field_food(pos, hp as int, hunger as int, food as int, label);
    lemma_field_time(pos, hp as int, hunger as int, food as int, label);
}

} // verus!
