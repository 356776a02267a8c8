//! The text that holds the reference data: records in braces, one
//! `"key": value` pair per line.

use crate::common::{GameError, GameResult};
use crate::data::{FightStyle, FishType, ItemKind, ItemType, UNIT};
use crate::scan::{
    all_digits, chars_of, digit_value, index_of, integer_within, number, read_digits,
    read_integer, span_is, span_string, split, split_once_span, split_span, strip, strip_end,
    strip_end_span, strip_span, trim, trim_span, whole, Class, Span, DIGIT_LIMIT,
};
use vstd::prelude::*;

verus! {

/// What a fish species holds, as plain values.
pub struct FishData {
    pub id: Seq<char>,
    pub name: Seq<char>,
    pub rarity: u32,
    pub strength: i32,
    pub min_depth: i32,
    pub max_depth: i32,
    pub fight_style: FightStyle,
    pub legendary: bool,
}

/// What a gear item holds, as plain values.
pub struct ItemData {
    pub id: Seq<char>,
    pub name: Seq<char>,
    pub kind: ItemKind,
    pub tension_bonus: i32,
    pub reel_factor: i32,
    pub bite_bonus: i32,
}

impl FishType {
    /// The species as plain values.
    pub open spec fn data(self) -> FishData {
        FishData {
            id: self.id@,
            name: self.name@,
            rarity: self.rarity,
            strength: self.strength,
            min_depth: self.min_depth,
            max_depth: self.max_depth,
            fight_style: self.fight_style,
            legendary: self.legendary,
        }
    }
}

impl ItemType {
    /// The item as plain values.
    pub open spec fn data(self) -> ItemData {
        ItemData {
            id: self.id@,
            name: self.name@,
            kind: self.kind,
            tension_bonus: self.tension_bonus,
            reel_factor: self.reel_factor,
            bite_bonus: self.bite_bonus,
        }
    }
}

/// The digit at place `k` after the point, and zero beyond the last.
pub open spec fn place(frac: Seq<char>, k: int) -> int {
    if 0 <= k < frac.len() {
        digit_value(frac[k])
    } else {
        0
    }
}

/// The thousandths that the digits after a decimal point stand for,
/// rounded to the nearest by the fourth digit.
pub open spec fn thousandths(frac: Seq<char>) -> int {
    place(frac, 0) * 100 + place(frac, 1) * 10 + place(frac, 2) + if place(frac, 3) >= 5 {
        1int
    } else {
        0int
    }
}

/// The fixed-point number, in thousandths, that a text stands for: a
/// sign, if any, then digits with or without a decimal point among them,
/// at least one digit in all, and nothing else.
pub open spec fn fixed(s: Seq<char>) -> Option<int> {
    let signed = s.len() > 0 && (s[0] == '-' || s[0] == '+');
    let body = if signed {
        s.drop_first()
    } else {
        s
    };
    let dot = index_of(body, '.');
    let whole = body.take(dot);
    let frac = if dot < body.len() {
        body.skip(dot + 1)
    } else {
        Seq::empty()
    };
    if whole.len() + frac.len() == 0 || !all_digits(whole) || !all_digits(frac) {
        None
    } else {
        let magnitude = number(whole) * 1000 + thousandths(frac);
        if signed && s[0] == '-' {
            Some(-magnitude)
        } else {
            Some(magnitude)
        }
    }
}

/// The fixed-point number that a text stands for if it lies within the
/// given bounds, and `otherwise` if not.
pub open spec fn fixed_or(s: Seq<char>, lo: int, hi: int, otherwise: int) -> int {
    match fixed(s) {
        Some(v) => if lo <= v <= hi {
            v
        } else {
            otherwise
        },
        None => otherwise,
    }
}

/// The integer that a text stands for if it fits in `i32`, and zero if
/// not.
pub open spec fn integer_or_zero(s: Seq<char>) -> int {
    match integer_within(s, i32::MIN as int, i32::MAX as int) {
        Some(v) => v,
        None => 0,
    }
}

/// The digit at place `k` of a stretch, and zero beyond its end.
fn place_at(text: &Vec<char>, span: Span, k: usize) -> (d: i64)
    requires
        span.within(text@.len()),
        all_digits(span.of(text@)),
        k < 4,
    ensures
        d == place(span.of(text@), k as int),
        0 <= d <= 9,
{
    if k < span.end - span.start {
        assert(crate::scan::is_digit(span.of(text@)[k as int]));
        (text[span.start + k] as u32 - '0' as u32) as i64
    } else {
        0
    }
}

/// Reads the fixed-point number, in thousandths, that a stretch stands
/// for.
pub fn read_fixed(text: &Vec<char>, span: Span, lo: i64, hi: i64, otherwise: i64) -> (r: i64)
    requires
        span.within(text@.len()),
        -DIGIT_LIMIT < lo <= hi < DIGIT_LIMIT,
    ensures
        r == fixed_or(span.of(text@), lo as int, hi as int, otherwise as int),
{
    let signed = span.start < span.end && (text[span.start] == '-' || text[span.start] == '+');
    let negative = signed && text[span.start] == '-';
    let body = if signed {
        Span { start: span.start + 1, end: span.end }
    } else {
        span
    };
    proof {
        if signed {
            assert(body.of(text@) =~= span.of(text@).drop_first());
        }
        assert(span.start < span.end ==> span.of(text@)[0] == text@[span.start as int]);
    }
    let (whole, tail) = split_once_span(text, body, '.');
    let frac = match tail {
        Some(rest) => rest,
        None => Span { start: body.end, end: body.end },
    };
    proof {
        if tail.is_none() {
            assert(frac.of(text@) =~= Seq::<char>::empty());
        }
    }
    if whole.end == whole.start && frac.end == frac.start {
        return otherwise;
    }
    let units = match read_digits(text, whole) {
        Some(v) => v,
        None => {
            return otherwise;
        },
    };
    if read_digits(text, frac).is_none() {
        return otherwise;
    }
    let part = place_at(text, frac, 0) * 100 + place_at(text, frac, 1) * 10 + place_at(
        text,
        frac,
        2,
    ) + if place_at(text, frac, 3) >= 5 {
        1
    } else {
        0
    };
    if units >= DIGIT_LIMIT {
        return otherwise;
    }
    let magnitude = units * 1000 + part;
    let value = if negative {
        -magnitude
    } else {
        magnitude
    };
    if lo <= value && value <= hi {
        value
    } else {
        otherwise
    }
}

/// Reads the integer that a stretch stands for, and zero where it stands
/// for none that fits in `i32`.
pub fn read_i32_or_zero(text: &Vec<char>, span: Span) -> (r: i32)
    requires
        span.within(text@.len()),
    ensures
        r == integer_or_zero(span.of(text@)),
{
    match read_integer(text, span, i32::MIN as i64, i32::MAX as i64) {
        Some(v) => v as i32,
        None => 0,
    }
}

/// What a line of a record says: nothing, a value under a key, or
/// nothing that can be read.
pub enum Field {
    Blank,
    Pair(Seq<char>, Seq<char>),
    Malformed(Seq<char>),
}

/// What a line of a record says. White space round the line and a comma
/// at its end do not count, nor do white space and double quotes round
/// key and value. A line that is not blank must hold a colon between key
/// and value.
pub open spec fn field_of(raw: Seq<char>) -> Field {
    let line = strip_end(trim(raw), Class::Is(','));
    let colon = index_of(line, ':');
    if line.len() == 0 {
        Field::Blank
    } else if colon >= line.len() {
        Field::Malformed(line)
    } else {
        Field::Pair(
            strip(trim(line.take(colon)), Class::Is('"')),
            strip(trim(line.skip(colon + 1)), Class::Is('"')),
        )
    }
}

/// What a line of a record says, as stretches of the text.
pub enum ReadField {
    Blank,
    Pair(Span, Span),
    Malformed(Span),
}

/// Reads a line of a record.
pub fn read_field(text: &Vec<char>, raw: Span) -> (r: ReadField)
    requires
        raw.within(text@.len()),
    ensures
        match r {
            ReadField::Blank => field_of(raw.of(text@)) is Blank,
            ReadField::Pair(key, value) => key.within(text@.len()) && value.within(text@.len())
                && field_of(raw.of(text@)) == Field::Pair(key.of(text@), value.of(text@)),
            ReadField::Malformed(line) => line.within(text@.len()) && field_of(raw.of(text@))
                == Field::Malformed(line.of(text@)),
        },
{
    let line = strip_end_span(text, trim_span(text, raw), Class::Is(','));
    if line.start == line.end {
        return ReadField::Blank;
    }
    let (head, tail) = split_once_span(text, line, ':');
    match tail {
        None => ReadField::Malformed(line),
        Some(rest) => ReadField::Pair(
            strip_span(text, trim_span(text, head), Class::Is('"')),
            strip_span(text, trim_span(text, rest), Class::Is('"')),
        ),
    }
}

/// The lines of a record: what stands between its opening brace and the
/// next closing one, or the end of the text.
pub open spec fn record_lines(object: Seq<char>) -> Seq<Seq<char>> {
    split(object.take(index_of(object, '}')), '\n')
}

/// The records of a text: what follows each opening brace.
pub open spec fn objects_of(data: Seq<char>) -> Seq<Seq<char>> {
    split(data, '{').drop_first()
}

/// A species before any of its fields is read.
pub open spec fn blank_fish() -> FishData {
    FishData {
        id: Seq::empty(),
        name: Seq::empty(),
        rarity: 0,
        strength: 0,
        min_depth: 0,
        max_depth: 0,
        fight_style: FightStyle::Aggressive,
        legendary: false,
    }
}

/// The fight style that a text names, and the aggressive one for any
/// other text.
pub open spec fn style_named(s: Seq<char>) -> FightStyle {
    if s == "Endurance"@ {
        FightStyle::Endurance
    } else if s == "Evasive"@ {
        FightStyle::Evasive
    } else {
        FightStyle::Aggressive
    }
}

/// A species after a value was read under a key. Fractions are read as
/// thousandths; a number that cannot be read counts as zero, and a key
/// that is none of a species changes nothing.
pub open spec fn fish_with(fish: FishData, key: Seq<char>, value: Seq<char>) -> FishData {
    if key == "id"@ {
        FishData { id: value, ..fish }
    } else if key == "name"@ {
        FishData { name: value, ..fish }
    } else if key == "rarity"@ {
        FishData { rarity: fixed_or(value, 0, u32::MAX as int, 0) as u32, ..fish }
    } else if key == "strength"@ {
        FishData { strength: integer_or_zero(value) as i32, ..fish }
    } else if key == "min_depth"@ {
        FishData { min_depth: integer_or_zero(value) as i32, ..fish }
    } else if key == "max_depth"@ {
        FishData { max_depth: integer_or_zero(value) as i32, ..fish }
    } else if key == "fight_style"@ {
        FishData { fight_style: style_named(value), ..fish }
    } else if key == "legendary"@ {
        FishData { legendary: value == "true"@ || value == "1"@, ..fish }
    } else {
        fish
    }
}

/// The species that the first `n` lines of a record give, or the first
/// of them that cannot be read.
pub open spec fn fish_after(lines: Seq<Seq<char>>, n: int) -> Result<FishData, Seq<char>>
    decreases n,
{
    if n <= 0 {
        Ok(blank_fish())
    } else {
        match fish_after(lines, n - 1) {
            Err(line) => Err(line),
            Ok(fish) => match field_of(lines[n - 1]) {
                Field::Blank => Ok(fish),
                Field::Malformed(line) => Err(line),
                Field::Pair(key, value) => Ok(fish_with(fish, key, value)),
            },
        }
    }
}

/// The species that the first `n` records of a text give, or the first
/// line among them that cannot be read. A record without an id gives no
/// species.
pub open spec fn fishes_after(objects: Seq<Seq<char>>, n: int) -> Result<Seq<FishData>, Seq<char>>
    decreases n,
{
    if n <= 0 {
        Ok(Seq::empty())
    } else {
        match fishes_after(objects, n - 1) {
            Err(line) => Err(line),
            Ok(fishes) => {
                let lines = record_lines(objects[n - 1]);
                match fish_after(lines, lines.len() as int) {
                    Err(line) => Err(line),
                    Ok(fish) => if fish.id.len() > 0 {
                        Ok(fishes.push(fish))
                    } else {
                        Ok(fishes)
                    },
                }
            },
        }
    }
}

/// The species of a list as plain values.
pub open spec fn fish_data(fishes: Seq<FishType>) -> Seq<FishData> {
    Seq::new(fishes.len(), |i: int| fishes[i].data())
}

/// A species as it is read, with its texts as stretches.
struct FishDraft {
    id: Span,
    name: Span,
    rarity: u32,
    strength: i32,
    min_depth: i32,
    max_depth: i32,
    fight_style: FightStyle,
    legendary: bool,
}

impl FishDraft {
    spec fn data(self, text: Seq<char>) -> FishData {
        FishData {
            id: self.id.of(text),
            name: self.name.of(text),
            rarity: self.rarity,
            strength: self.strength,
            min_depth: self.min_depth,
            max_depth: self.max_depth,
            fight_style: self.fight_style,
            legendary: self.legendary,
        }
    }

    spec fn within(self, len: nat) -> bool {
        self.id.within(len) && self.name.within(len)
    }
}

/// Reads the fight style that a stretch names.
fn read_style(text: &Vec<char>, value: Span) -> (style: FightStyle)
    requires
        value.within(text@.len()),
    ensures
        style == style_named(value.of(text@)),
{
    if span_is(text, value, "Endurance") {
        FightStyle::Endurance
    } else if span_is(text, value, "Evasive") {
        FightStyle::Evasive
    } else {
        FightStyle::Aggressive
    }
}

/// Puts a value under a key into a species.
fn fish_field(draft: FishDraft, text: &Vec<char>, key: Span, value: Span) -> (next: FishDraft)
    requires
        draft.within(text@.len()),
        key.within(text@.len()),
        value.within(text@.len()),
    ensures
        next.within(text@.len()),
        next.data(text@) == fish_with(draft.data(text@), key.of(text@), value.of(text@)),
{
    if span_is(text, key, "id") {
        FishDraft { id: value, ..draft }
    } else if span_is(text, key, "name") {
        FishDraft { name: value, ..draft }
    } else if span_is(text, key, "rarity") {
        FishDraft { rarity: read_fixed(text, value, 0, u32::MAX as i64, 0) as u32, ..draft }
    } else if span_is(text, key, "strength") {
        FishDraft { strength: read_i32_or_zero(text, value), ..draft }
    } else if span_is(text, key, "min_depth") {
        FishDraft { min_depth: read_i32_or_zero(text, value), ..draft }
    } else if span_is(text, key, "max_depth") {
        FishDraft { max_depth: read_i32_or_zero(text, value), ..draft }
    } else if span_is(text, key, "fight_style") {
        FishDraft { fight_style: read_style(text, value), ..draft }
    } else if span_is(text, key, "legendary") {
        let yes = span_is(text, value, "true");
        let one = span_is(text, value, "1");
        FishDraft { legendary: yes || one, ..draft }
    } else {
        draft
    }
}

/// Reads the species of a record.
fn read_fish(text: &Vec<char>, object: Span) -> (r: Result<FishDraft, Span>)
    requires
        object.within(text@.len()),
    ensures
        match r {
            Ok(draft) => draft.within(text@.len()) && fish_after(
                record_lines(object.of(text@)),
                record_lines(object.of(text@)).len() as int,
            ) == Ok::<FishData, Seq<char>>(draft.data(text@)),
            Err(line) => line.within(text@.len()) && fish_after(
                record_lines(object.of(text@)),
                record_lines(object.of(text@)).len() as int,
            ) == Err::<FishData, Seq<char>>(line.of(text@)),
        },
{
    let (body, _) = split_once_span(text, object, '}');
    let lines = split_span(text, body, '\n');
    let ghost all = record_lines(object.of(text@));
    let none = Span { start: 0, end: 0 };
    assert(none.of(text@) =~= Seq::<char>::empty());
    let mut draft = FishDraft {
        id: none,
        name: none,
        rarity: 0,
        strength: 0,
        min_depth: 0,
        max_depth: 0,
        fight_style: FightStyle::Aggressive,
        legendary: false,
    };
    let n = lines.len();
    let mut k: usize = 0;
    while k < n
        invariant
            k <= n,
            n == lines@.len(),
            crate::scan::all_within(lines@, text@.len()),
            crate::scan::pieces(text@, lines@) == all,
            all == record_lines(object.of(text@)),
            draft.within(text@.len()),
            fish_after(all, k as int) == Ok::<FishData, Seq<char>>(draft.data(text@)),
        decreases n - k,
    {
        assert(lines@[k as int].within(text@.len()));
        assert(all[k as int] == lines@[k as int].of(text@));
        match read_field(text, lines[k]) {
            ReadField::Blank => {},
            ReadField::Malformed(line) => {
                proof {
                    assert(fish_after(all, k + 1) == Err::<FishData, Seq<char>>(line.of(text@)));
                    lemma_fish_fault_stays(all, k + 1, n as int);
                }
                return Err(line);
            },
            ReadField::Pair(key, value) => {
                draft = fish_field(draft, text, key, value);
            },
        }
        k += 1;
    }
    Ok(draft)
}

/// A line that cannot be read among the first lines of a record is what
/// the whole record gives.
proof fn lemma_fish_fault_stays(lines: Seq<Seq<char>>, m: int, n: int)
    requires
        0 <= m <= n,
        fish_after(lines, m).is_err(),
    ensures
        fish_after(lines, n) == fish_after(lines, m),
    decreases n,
{
    if n > m {
        lemma_fish_fault_stays(lines, m, n - 1);
    }
}

/// A line that cannot be read among the first records is what the whole
/// text gives.
proof fn lemma_fishes_fault_stays(objects: Seq<Seq<char>>, m: int, n: int)
    requires
        0 <= m <= n,
        fishes_after(objects, m).is_err(),
    ensures
        fishes_after(objects, n) == fishes_after(objects, m),
    decreases n,
{
    if n > m {
        lemma_fishes_fault_stays(objects, m, n - 1);
    }
}

/// Reads the fish species of a text. Fails with a parse error that
/// names the first line that cannot be read, and with `InvalidOperation`
/// where the text holds no species.
pub fn parse_fish_json(data: &str) -> (r: GameResult<Vec<FishType>>)
    ensures
        match fishes_after(objects_of(data@), objects_of(data@).len() as int) {
            Ok(list) => if list.len() == 0 {
                r matches Err(GameError::InvalidOperation)
            } else {
                r matches Ok(fishes) && fish_data(fishes@) == list
            },
            Err(line) => r matches Err(GameError::Parse(msg)) && msg@ == line,
        },
{
    let text = chars_of(data);
    let parts = split_span(&text, whole(&text), '{');
    let ghost objects = objects_of(data@);
    let mut fishes: Vec<FishType> = Vec::new();
    assert(fish_data(fishes@) =~= Seq::<FishData>::empty());
    let n = parts.len();
    let mut k: usize = 1;
    while k < n
        invariant
            1 <= k <= n,
            n == parts@.len(),
            text@ == data@,
            crate::scan::all_within(parts@, text@.len()),
            crate::scan::pieces(text@, parts@) == split(data@, '{'),
            objects == objects_of(data@),
            fishes_after(objects, k - 1) == Ok::<Seq<FishData>, Seq<char>>(fish_data(fishes@)),
        decreases n - k,
    {
        assert(parts@[k as int].within(text@.len()));
        assert(objects[k - 1] == parts@[k as int].of(text@));
        match read_fish(&text, parts[k]) {
            Err(line) => {
                proof {
                    lemma_fishes_fault_stays(objects, k as int, n - 1);
                }
                return Err(GameError::Parse(span_string(data, &text, line)));
            },
            Ok(draft) => {
                if draft.id.end > draft.id.start {
                    let ghost before = fishes@;
                    fishes.push(
                        FishType {
                            id: span_string(data, &text, draft.id),
                            name: span_string(data, &text, draft.name),
                            rarity: draft.rarity,
                            strength: draft.strength,
                            min_depth: draft.min_depth,
                            max_depth: draft.max_depth,
                            fight_style: draft.fight_style,
                            legendary: draft.legendary,
                        },
                    );
                    assert(fish_data(fishes@) =~= fish_data(before).push(draft.data(text@)));
                }
            },
        }
        k += 1;
    }
    if fishes.len() == 0 {
        return Err(GameError::InvalidOperation);
    }
    Ok(fishes)
}

/// An item before any of its fields is read.
pub open spec fn blank_item() -> ItemData {
    ItemData {
        id: Seq::empty(),
        name: Seq::empty(),
        kind: ItemKind::Rod,
        tension_bonus: 0,
        reel_factor: UNIT,
        bite_bonus: 0,
    }
}

/// The kind of item that a text names, and a rod for any other text.
pub open spec fn kind_named(s: Seq<char>) -> ItemKind {
    if s == "Reel"@ {
        ItemKind::Reel
    } else if s == "Lure"@ {
        ItemKind::Lure
    } else if s == "Food"@ {
        ItemKind::Food
    } else {
        ItemKind::Rod
    }
}

/// An item after a value was read under a key. Fractions are read as
/// thousandths; a tension bonus or bite bonus that cannot be read counts
/// as zero and a reel factor as one, and a key that is none of an item
/// changes nothing.
pub open spec fn item_with(item: ItemData, key: Seq<char>, value: Seq<char>) -> ItemData {
    if key == "id"@ {
        ItemData { id: value, ..item }
    } else if key == "name"@ {
        ItemData { name: value, ..item }
    } else if key == "kind"@ {
        ItemData { kind: kind_named(value), ..item }
    } else if key == "tension_bonus"@ {
        ItemData { tension_bonus: integer_or_zero(value) as i32, ..item }
    } else if key == "reel_factor"@ {
        ItemData {
            reel_factor: fixed_or(value, i32::MIN as int, i32::MAX as int, 1000) as i32,
            ..item
        }
    } else if key == "bite_bonus"@ {
        ItemData {
            bite_bonus: fixed_or(value, i32::MIN as int, i32::MAX as int, 0) as i32,
            ..item
        }
    } else {
        item
    }
}

/// The item that the first `n` lines of a record give, or the first of
/// them that cannot be read.
pub open spec fn item_after(lines: Seq<Seq<char>>, n: int) -> Result<ItemData, Seq<char>>
    decreases n,
{
    if n <= 0 {
        Ok(blank_item())
    } else {
        match item_after(lines, n - 1) {
            Err(line) => Err(line),
            Ok(item) => match field_of(lines[n - 1]) {
                Field::Blank => Ok(item),
                Field::Malformed(line) => Err(line),
                Field::Pair(key, value) => Ok(item_with(item, key, value)),
            },
        }
    }
}

/// The items that the first `n` records of a text give, or the first
/// line among them that cannot be read. A record without an id gives no
/// item.
pub open spec fn items_after(objects: Seq<Seq<char>>, n: int) -> Result<Seq<ItemData>, Seq<char>>
    decreases n,
{
    if n <= 0 {
        Ok(Seq::empty())
    } else {
        match items_after(objects, n - 1) {
            Err(line) => Err(line),
            Ok(items) => {
                let lines = record_lines(objects[n - 1]);
                match item_after(lines, lines.len() as int) {
                    Err(line) => Err(line),
                    Ok(item) => if item.id.len() > 0 {
                        Ok(items.push(item))
                    } else {
                        Ok(items)
                    },
                }
            },
        }
    }
}

/// The items of a list as plain values.
pub open spec fn item_data(items: Seq<ItemType>) -> Seq<ItemData> {
    Seq::new(items.len(), |i: int| items[i].data())
}

/// An item as it is read, with its texts as stretches.
struct ItemDraft {
    id: Span,
    name: Span,
    kind: ItemKind,
    tension_bonus: i32,
    reel_factor: i32,
    bite_bonus: i32,
}

impl ItemDraft {
    spec fn data(self, text: Seq<char>) -> ItemData {
        ItemData {
            id: self.id.of(text),
            name: self.name.of(text),
            kind: self.kind,
            tension_bonus: self.tension_bonus,
            reel_factor: self.reel_factor,
            bite_bonus: self.bite_bonus,
        }
    }

    spec fn within(self, len: nat) -> bool {
        self.id.within(len) && self.name.within(len)
    }
}

/// Reads the kind of item that a stretch names.
fn read_kind(text: &Vec<char>, value: Span) -> (kind: ItemKind)
    requires
        value.within(text@.len()),
    ensures
        kind == kind_named(value.of(text@)),
{
    if span_is(text, value, "Reel") {
        ItemKind::Reel
    } else if span_is(text, value, "Lure") {
        ItemKind::Lure
    } else if span_is(text, value, "Food") {
        ItemKind::Food
    } else {
        ItemKind::Rod
    }
}

/// Puts a value under a key into an item.
fn item_field(draft: ItemDraft, text: &Vec<char>, key: Span, value: Span) -> (next: ItemDraft)
    requires
        draft.within(text@.len()),
        key.within(text@.len()),
        value.within(text@.len()),
    ensures
        next.within(text@.len()),
        next.data(text@) == item_with(draft.data(text@), key.of(text@), value.of(text@)),
{
    if span_is(text, key, "id") {
        ItemDraft { id: value, ..draft }
    } else if span_is(text, key, "name") {
        ItemDraft { name: value, ..draft }
    } else if span_is(text, key, "kind") {
        ItemDraft { kind: read_kind(text, value), ..draft }
    } else if span_is(text, key, "tension_bonus") {
        ItemDraft { tension_bonus: read_i32_or_zero(text, value), ..draft }
    } else if span_is(text, key, "reel_factor") {
        ItemDraft {
            reel_factor: read_fixed(text, value, i32::MIN as i64, i32::MAX as i64, 1000) as i32,
            ..draft
        }
    } else if span_is(text, key, "bite_bonus") {
        ItemDraft {
            bite_bonus: read_fixed(text, value, i32::MIN as i64, i32::MAX as i64, 0) as i32,
            ..draft
        }
    } else {
        draft
    }
}

/// Reads the item of a record.
fn read_item(text: &Vec<char>, object: Span) -> (r: Result<ItemDraft, Span>)
    requires
        object.within(text@.len()),
    ensures
        match r {
            Ok(draft) => draft.within(text@.len()) && item_after(
                record_lines(object.of(text@)),
                record_lines(object.of(text@)).len() as int,
            ) == Ok::<ItemData, Seq<char>>(draft.data(text@)),
            Err(line) => line.within(text@.len()) && item_after(
                record_lines(object.of(text@)),
                record_lines(object.of(text@)).len() as int,
            ) == Err::<ItemData, Seq<char>>(line.of(text@)),
        },
{
    let (body, _) = split_once_span(text, object, '}');
    let lines = split_span(text, body, '\n');
    let ghost all = record_lines(object.of(text@));
    let none = Span { start: 0, end: 0 };
    assert(none.of(text@) =~= Seq::<char>::empty());
    let mut draft = ItemDraft {
        id: none,
        name: none,
        kind: ItemKind::Rod,
        tension_bonus: 0,
        reel_factor: UNIT,
        bite_bonus: 0,
    };
    let n = lines.len();
    let mut k: usize = 0;
    while k < n
        invariant
            k <= n,
            n == lines@.len(),
            crate::scan::all_within(lines@, text@.len()),
            crate::scan::pieces(text@, lines@) == all,
            all == record_lines(object.of(text@)),
            draft.within(text@.len()),
            item_after(all, k as int) == Ok::<ItemData, Seq<char>>(draft.data(text@)),
        decreases n - k,
    {
        assert(lines@[k as int].within(text@.len()));
        assert(all[k as int] == lines@[k as int].of(text@));
        match read_field(text, lines[k]) {
            ReadField::Blank => {},
            ReadField::Malformed(line) => {
                proof {
                    assert(item_after(all, k + 1) == Err::<ItemData, Seq<char>>(line.of(text@)));
                    lemma_item_fault_stays(all, k + 1, n as int);
                }
                return Err(line);
            },
            ReadField::Pair(key, value) => {
                draft = item_field(draft, text, key, value);
            },
        }
        k += 1;
    }
    Ok(draft)
}

/// A line that cannot be read among the first lines of a record is what
/// the whole record gives.
proof fn lemma_item_fault_stays(lines: Seq<Seq<char>>, m: int, n: int)
    requires
        0 <= m <= n,
        item_after(lines, m).is_err(),
    ensures
        item_after(lines, n) == item_after(lines, m),
    decreases n,
{
    if n > m {
        lemma_item_fault_stays(lines, m, n - 1);
    }
}

/// A line that cannot be read among the first records is what the whole
/// text gives.
proof fn lemma_items_fault_stays(objects: Seq<Seq<char>>, m: int, n: int)
    requires
        0 <= m <= n,
        items_after(objects, m).is_err(),
    ensures
        items_after(objects, n) == items_after(objects, m),
    decreases n,
{
    if n > m {
        lemma_items_fault_stays(objects, m, n - 1);
    }
}

/// Reads the gear items of a text. Fails with a parse error that names
/// the first line that cannot be read, and with `InvalidOperation` where
/// the text holds no item.
pub fn parse_item_json(data: &str) -> (r: GameResult<Vec<ItemType>>)
    ensures
        match items_after(objects_of(data@), objects_of(data@).len() as int) {
            Ok(list) => if list.len() == 0 {
                r matches Err(GameError::InvalidOperation)
            } else {
                r matches Ok(items) && item_data(items@) == list
            },
            Err(line) => r matches Err(GameError::Parse(msg)) && msg@ == line,
        },
{
    let text = chars_of(data);
    let parts = split_span(&text, whole(&text), '{');
    let ghost objects = objects_of(data@);
    let mut items: Vec<ItemType> = Vec::new();
    assert(item_data(items@) =~= Seq::<ItemData>::empty());
    let n = parts.len();
    let mut k: usize = 1;
    while k < n
        invariant
            1 <= k <= n,
            n == parts@.len(),
            text@ == data@,
            crate::scan::all_within(parts@, text@.len()),
            crate::scan::pieces(text@, parts@) == split(data@, '{'),
            objects == objects_of(data@),
            items_after(objects, k - 1) == Ok::<Seq<ItemData>, Seq<char>>(item_data(items@)),
        decreases n - k,
    {
        assert(parts@[k as int].within(text@.len()));
        assert(objects[k - 1] == parts@[k as int].of(text@));
        match read_item(&text, parts[k]) {
            Err(line) => {
                proof {
                    lemma_items_fault_stays(objects, k as int, n - 1);
                }
                return Err(GameError::Parse(span_string(data, &text, line)));
            },
            Ok(draft) => {
                if draft.id.end > draft.id.start {
                    let ghost before = items@;
                    items.push(
                        ItemType {
                            id: span_string(data, &text, draft.id),
                            name: span_string(data, &text, draft.name),
                            kind: draft.kind,
                            tension_bonus: draft.tension_bonus,
                            reel_factor: draft.reel_factor,
                            bite_bonus: draft.bite_bonus,
                        },
                    );
                    assert(item_data(items@) =~= item_data(before).push(draft.data(text@)));
                }
            },
        }
        k += 1;
    }
    if items.len() == 0 {
        return Err(GameError::InvalidOperation);
    }
    Ok(items)
}

} // verus!
