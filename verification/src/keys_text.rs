//! The text in which key bindings and options are kept between runs.

use crate::keys::{default_config, InputConfig, Key};
use crate::scan::{
    chars_of, index_of, integer_within, read_integer, span_is, split, split_once_span,
    split_span, strip, strip_span, trim, trim_span, whole, Class, Span,
};
use crate::text::{digits, push_digits};
use vstd::prelude::*;
use vstd::string::StringExecFns;

verus! {

/// A letter in lower case, and any other character as it is.
pub open spec fn lower(c: char) -> char {
    if 'A' <= c <= 'Z' {
        ((c as u8) + 32) as char
    } else {
        c
    }
}

/// A text with its letters in lower case.
pub open spec fn lowered(s: Seq<char>) -> Seq<char> {
    Seq::new(s.len(), |i: int| lower(s[i]))
}

/// A letter in lower case, and any other character as it is.
pub fn to_lower(c: char) -> (l: char)
    ensures
        l == lower(c),
{
    if 'A' <= c && c <= 'Z' {
        ((c as u8) + 32) as char
    } else {
        c
    }
}

/// The characters of a stretch in lower case.
pub fn lower_chars(text: &Vec<char>, span: Span) -> (low: Vec<char>)
    requires
        span.within(text@.len()),
    ensures
        low@ == lowered(span.of(text@)),
{
    let mut low: Vec<char> = Vec::new();
    let mut k = span.start;
    while k < span.end
        invariant
            span.start <= k <= span.end <= text@.len(),
            low@.len() == k - span.start,
            forall|j: int| 0 <= j < low@.len() ==> low@[j] == lower(text@[span.start + j]),
        decreases span.end - k,
    {
        low.push(to_lower(text[k]));
        k += 1;
    }
    assert(low@ =~= lowered(span.of(text@)));
    low
}

/// The name of a key in the configuration text. Only these keys have one.
pub open spec fn key_label(key: Key) -> Option<Seq<char>> {
    match key {
        Key::Left => Some("Left"@),
        Key::Right => Some("Right"@),
        Key::Up => Some("Up"@),
        Key::Down => Some("Down"@),
        Key::Y => Some("Y"@),
        Key::U => Some("U"@),
        Key::H => Some("H"@),
        Key::J => Some("J"@),
        Key::K => Some("K"@),
        Key::L => Some("L"@),
        Key::B => Some("B"@),
        Key::N => Some("N"@),
        Key::C => Some("C"@),
        Key::F => Some("F"@),
        Key::G => Some("G"@),
        Key::X => Some("X"@),
        Key::E => Some("E"@),
        Key::R => Some("R"@),
        Key::I => Some("I"@),
        Key::S => Some("S"@),
        Key::Q => Some("Q"@),
        Key::Return => Some("Return"@),
        Key::PageUp => Some("PageUp"@),
        Key::PageDown => Some("PageDown"@),
        Key::F1 => Some("F1"@),
        Key::O => Some("O"@),
        _ => None,
    }
}

/// The key that a name in the configuration text stands for. Upper and
/// lower case make no difference.
#[verifier::opaque]
pub open spec fn key_named(name: Seq<char>) -> Option<Key> {
    let low = lowered(name);
    if low == "left"@ {
        Some(Key::Left)
    } else if low == "right"@ {
        Some(Key::Right)
    } else if low == "up"@ {
        Some(Key::Up)
    } else if low == "down"@ {
        Some(Key::Down)
    } else if low == "y"@ {
        Some(Key::Y)
    } else if low == "u"@ {
        Some(Key::U)
    } else if low == "h"@ {
        Some(Key::H)
    } else if low == "j"@ {
        Some(Key::J)
    } else if low == "k"@ {
        Some(Key::K)
    } else if low == "l"@ {
        Some(Key::L)
    } else if low == "b"@ {
        Some(Key::B)
    } else if low == "n"@ {
        Some(Key::N)
    } else if low == "c"@ {
        Some(Key::C)
    } else if low == "f"@ {
        Some(Key::F)
    } else if low == "g"@ {
        Some(Key::G)
    } else if low == "x"@ {
        Some(Key::X)
    } else if low == "e"@ {
        Some(Key::E)
    } else if low == "r"@ {
        Some(Key::R)
    } else if low == "i"@ {
        Some(Key::I)
    } else if low == "s"@ {
        Some(Key::S)
    } else if low == "q"@ {
        Some(Key::Q)
    } else if low == "return"@ {
        Some(Key::Return)
    } else if low == "pageup"@ {
        Some(Key::PageUp)
    } else if low == "pagedown"@ {
        Some(Key::PageDown)
    } else if low == "f1"@ {
        Some(Key::F1)
    } else if low == "o"@ {
        Some(Key::O)
    } else {
        None
    }
}

/// The name of a key in the configuration text.
pub fn key_name(key: Key) -> (name: &'static str)
    requires
        key_label(key).is_some(),
    ensures
        key_label(key) == Some(name@),
{
    match key {
        Key::Left => "Left",
        Key::Right => "Right",
        Key::Up => "Up",
        Key::Down => "Down",
        Key::Y => "Y",
        Key::U => "U",
        Key::H => "H",
        Key::J => "J",
        Key::K => "K",
        Key::L => "L",
        Key::B => "B",
        Key::N => "N",
        Key::C => "C",
        Key::F => "F",
        Key::G => "G",
        Key::X => "X",
        Key::E => "E",
        Key::R => "R",
        Key::I => "I",
        Key::S => "S",
        Key::Q => "Q",
        Key::Return => "Return",
        Key::PageUp => "PageUp",
        Key::PageDown => "PageDown",
        Key::F1 => "F1",
        Key::O => "O",
        _ => "",
    }
}

/// Reads the key that a stretch names.
pub fn parse_key(text: &Vec<char>, span: Span) -> (key: Option<Key>)
    requires
        span.within(text@.len()),
    ensures
        key == key_named(span.of(text@)),
{
    reveal(key_named);
    let low = lower_chars(text, span);
    let all = whole(&low);
    if span_is(&low, all, "left") {
        Some(Key::Left)
    } else if span_is(&low, all, "right") {
        Some(Key::Right)
    } else if span_is(&low, all, "up") {
        Some(Key::Up)
    } else if span_is(&low, all, "down") {
        Some(Key::Down)
    } else if span_is(&low, all, "y") {
        Some(Key::Y)
    } else if span_is(&low, all, "u") {
        Some(Key::U)
    } else if span_is(&low, all, "h") {
        Some(Key::H)
    } else if span_is(&low, all, "j") {
        Some(Key::J)
    } else if span_is(&low, all, "k") {
        Some(Key::K)
    } else if span_is(&low, all, "l") {
        Some(Key::L)
    } else if span_is(&low, all, "b") {
        Some(Key::B)
    } else if span_is(&low, all, "n") {
        Some(Key::N)
    } else if span_is(&low, all, "c") {
        Some(Key::C)
    } else if span_is(&low, all, "f") {
        Some(Key::F)
    } else if span_is(&low, all, "g") {
        Some(Key::G)
    } else if span_is(&low, all, "x") {
        Some(Key::X)
    } else if span_is(&low, all, "e") {
        Some(Key::E)
    } else if span_is(&low, all, "r") {
        Some(Key::R)
    } else if span_is(&low, all, "i") {
        Some(Key::I)
    } else if span_is(&low, all, "s") {
        Some(Key::S)
    } else if span_is(&low, all, "q") {
        Some(Key::Q)
    } else if span_is(&low, all, "return") {
        Some(Key::Return)
    } else if span_is(&low, all, "pageup") {
        Some(Key::PageUp)
    } else if span_is(&low, all, "pagedown") {
        Some(Key::PageDown)
    } else if span_is(&low, all, "f1") {
        Some(Key::F1)
    } else if span_is(&low, all, "o") {
        Some(Key::O)
    } else {
        None
    }
}

/// The configuration after the binding with the given name was set to a
/// key. A name that is no binding changes nothing.
#[verifier::opaque]
pub open spec fn bound(cfg: InputConfig, name: Seq<char>, key: Key) -> InputConfig {
    if name == "left"@ {
        InputConfig { left: key, ..cfg }
    } else if name == "right"@ {
        InputConfig { right: key, ..cfg }
    } else if name == "up"@ {
        InputConfig { up: key, ..cfg }
    } else if name == "down"@ {
        InputConfig { down: key, ..cfg }
    } else if name == "up_left"@ {
        InputConfig { up_left: key, ..cfg }
    } else if name == "up_right"@ {
        InputConfig { up_right: key, ..cfg }
    } else if name == "down_left"@ {
        InputConfig { down_left: key, ..cfg }
    } else if name == "down_right"@ {
        InputConfig { down_right: key, ..cfg }
    } else if name == "cast"@ {
        InputConfig { cast: key, ..cfg }
    } else if name == "reel"@ {
        InputConfig { reel: key, ..cfg }
    } else if name == "inventory"@ {
        InputConfig { inventory: key, ..cfg }
    } else if name == "eat"@ {
        InputConfig { eat: key, ..cfg }
    } else if name == "cook"@ {
        InputConfig { cook: key, ..cfg }
    } else if name == "snack"@ {
        InputConfig { snack: key, ..cfg }
    } else if name == "save"@ {
        InputConfig { save: key, ..cfg }
    } else if name == "quit"@ {
        InputConfig { quit: key, ..cfg }
    } else if name == "end_run"@ {
        InputConfig { end_run: key, ..cfg }
    } else if name == "scroll_up"@ {
        InputConfig { scroll_up: key, ..cfg }
    } else if name == "scroll_down"@ {
        InputConfig { scroll_down: key, ..cfg }
    } else if name == "help"@ {
        InputConfig { help: key, ..cfg }
    } else if name == "options"@ {
        InputConfig { options: key, ..cfg }
    } else {
        cfg
    }
}

/// Sets the binding that a stretch names to a key.
pub fn bind(cfg: InputConfig, text: &Vec<char>, name: Span, key: Key) -> (next: InputConfig)
    requires
        name.within(text@.len()),
    ensures
        next == bound(cfg, name.of(text@), key),
{
    reveal(bound);
    let mut next = cfg;
    if span_is(text, name, "left") {
        next.left = key;
    } else if span_is(text, name, "right") {
        next.right = key;
    } else if span_is(text, name, "up") {
        next.up = key;
    } else if span_is(text, name, "down") {
        next.down = key;
    } else if span_is(text, name, "up_left") {
        next.up_left = key;
    } else if span_is(text, name, "up_right") {
        next.up_right = key;
    } else if span_is(text, name, "down_left") {
        next.down_left = key;
    } else if span_is(text, name, "down_right") {
        next.down_right = key;
    } else if span_is(text, name, "cast") {
        next.cast = key;
    } else if span_is(text, name, "reel") {
        next.reel = key;
    } else if span_is(text, name, "inventory") {
        next.inventory = key;
    } else if span_is(text, name, "eat") {
        next.eat = key;
    } else if span_is(text, name, "cook") {
        next.cook = key;
    } else if span_is(text, name, "snack") {
        next.snack = key;
    } else if span_is(text, name, "save") {
        next.save = key;
    } else if span_is(text, name, "quit") {
        next.quit = key;
    } else if span_is(text, name, "end_run") {
        next.end_run = key;
    } else if span_is(text, name, "scroll_up") {
        next.scroll_up = key;
    } else if span_is(text, name, "scroll_down") {
        next.scroll_down = key;
    } else if span_is(text, name, "help") {
        next.help = key;
    } else if span_is(text, name, "options") {
        next.options = key;
    }
    next
}

/// The level, from 0 to 255, that a text stands for.
pub open spec fn level_of(s: Seq<char>) -> Option<u8> {
    match integer_within(s, 0, 255) {
        Some(v) => Some(v as u8),
        None => None,
    }
}

/// Reads the level that a stretch stands for.
pub fn read_level(text: &Vec<char>, span: Span) -> (r: Option<u8>)
    requires
        span.within(text@.len()),
    ensures
        r == level_of(span.of(text@)),
{
    match read_integer(text, span, 0, 255) {
        Some(v) => Some(v as u8),
        None => None,
    }
}

/// The configuration after `name` was set to `value`: the palette option
/// to whether the value reads `true`, volume and font scale to a number
/// from 0 to 255, and a binding to a key by its name. A value that
/// cannot be read changes nothing.
pub open spec fn assigned(cfg: InputConfig, name: Seq<char>, value: Seq<char>) -> InputConfig {
    if name == "colorblind"@ {
        InputConfig { colorblind: value == "true"@, ..cfg }
    } else if name == "volume"@ {
        match level_of(value) {
            Some(volume) => InputConfig { volume, ..cfg },
            None => cfg,
        }
    } else if name == "font_scale"@ {
        match level_of(value) {
            Some(font_scale) => InputConfig { font_scale, ..cfg },
            None => cfg,
        }
    } else {
        match key_named(value) {
            Some(key) => bound(cfg, name, key),
            None => cfg,
        }
    }
}

/// The configuration after a line of the text was read. Blank lines,
/// lines that begin with `#` and lines without `=` change nothing. Any
/// other line sets what stands before the `=` to what stands after it,
/// where white space and double quotes round the value do not count.
pub open spec fn line_applied(cfg: InputConfig, raw: Seq<char>) -> InputConfig {
    let line = trim(raw);
    let eq = index_of(line, '=');
    if line.len() == 0 || line[0] == '#' || eq >= line.len() {
        cfg
    } else {
        assigned(cfg, trim(line.take(eq)), strip(trim(line.skip(eq + 1)), Class::Is('"')))
    }
}

/// The configuration after the first `n` lines of a text were read,
/// starting from the default.
pub open spec fn config_after(lines: Seq<Seq<char>>, n: int) -> InputConfig
    decreases n,
{
    if n <= 0 {
        default_config()
    } else {
        line_applied(config_after(lines, n - 1), lines[n - 1])
    }
}

/// The configuration that a text gives.
pub open spec fn config_of(data: Seq<char>) -> InputConfig {
    config_after(split(data, '\n'), split(data, '\n').len() as int)
}

/// Sets what one stretch names to what another says.
pub fn assign(cfg: InputConfig, text: &Vec<char>, name: Span, value: Span) -> (next: InputConfig)
    requires
        name.within(text@.len()),
        value.within(text@.len()),
    ensures
        next == assigned(cfg, name.of(text@), value.of(text@)),
{
    if span_is(text, name, "colorblind") {
        InputConfig { colorblind: span_is(text, value, "true"), ..cfg }
    } else if span_is(text, name, "volume") {
        match read_level(text, value) {
            Some(volume) => InputConfig { volume, ..cfg },
            None => cfg,
        }
    } else if span_is(text, name, "font_scale") {
        match read_level(text, value) {
            Some(font_scale) => InputConfig { font_scale, ..cfg },
            None => cfg,
        }
    } else {
        match parse_key(text, value) {
            Some(key) => bind(cfg, text, name, key),
            None => cfg,
        }
    }
}

/// Reads a line of the configuration text.
pub fn apply_line(cfg: InputConfig, text: &Vec<char>, raw: Span) -> (next: InputConfig)
    requires
        raw.within(text@.len()),
    ensures
        next == line_applied(cfg, raw.of(text@)),
{
    let line = trim_span(text, raw);
    if line.start == line.end || text[line.start] == '#' {
        return cfg;
    }
    assert(line.of(text@)[0] == text@[line.start as int]);
    let (head, tail) = split_once_span(text, line, '=');
    match tail {
        Some(rest) => {
            let name = trim_span(text, head);
            let value = strip_span(text, trim_span(text, rest), Class::Is('"'));
            assign(cfg, text, name, value)
        },
        None => cfg,
    }
}

/// The line of a binding in the configuration text.
pub open spec fn binding_line(name: Seq<char>, key: Key) -> Seq<char> {
    name + " = \""@ + key_label(key).unwrap() + "\"\n"@
}

/// The configuration text: a line for each binding, with the key's name
/// in double quotes, and a line for each option.
pub open spec fn config_text(cfg: InputConfig) -> Seq<char> {
    binding_line("left"@, cfg.left)
        + binding_line("right"@, cfg.right)
        + binding_line("up"@, cfg.up)
        + binding_line("down"@, cfg.down)
        + binding_line("up_left"@, cfg.up_left)
        + binding_line("up_right"@, cfg.up_right)
        + binding_line("down_left"@, cfg.down_left)
        + binding_line("down_right"@, cfg.down_right)
        + binding_line("cast"@, cfg.cast)
        + binding_line("reel"@, cfg.reel)
        + binding_line("inventory"@, cfg.inventory)
        + binding_line("eat"@, cfg.eat)
        + binding_line("cook"@, cfg.cook)
        + binding_line("snack"@, cfg.snack)
        + binding_line("save"@, cfg.save)
        + binding_line("quit"@, cfg.quit)
        + binding_line("end_run"@, cfg.end_run)
        + binding_line("scroll_up"@, cfg.scroll_up)
        + binding_line("scroll_down"@, cfg.scroll_down)
        + binding_line("help"@, cfg.help)
        + binding_line("options"@, cfg.options)
        + "colorblind = "@ + (if cfg.colorblind {
        "true"@
    } else {
        "false"@
    }) + "\n"@ + "volume = "@ + digits(cfg.volume as nat) + "\n"@ + "font_scale = "@ + digits(
        cfg.font_scale as nat,
    ) + "\n"@
}

/// Appends the line of a binding to a text.
fn push_binding(out: &mut String, name: &str, key: Key)
    requires
        key_label(key).is_some(),
    ensures
        final(out)@ == old(out)@ + binding_line(name@, key),
{
    out.append(name);
    out.append(" = \"");
    out.append(key_name(key));
    out.append("\"\n");
    assert(out@ =~= old(out)@ + binding_line(name@, key));
}

impl InputConfig {
    /// Whether every binding is to a key that has a name in the
    /// configuration text.
    pub open spec fn nameable(self) -> bool {
        &&& key_label(self.left).is_some()
        &&& key_label(self.right).is_some()
        &&& key_label(self.up).is_some()
        &&& key_label(self.down).is_some()
        &&& key_label(self.up_left).is_some()
        &&& key_label(self.up_right).is_some()
        &&& key_label(self.down_left).is_some()
        &&& key_label(self.down_right).is_some()
        &&& key_label(self.cast).is_some()
        &&& key_label(self.reel).is_some()
        &&& key_label(self.inventory).is_some()
        &&& key_label(self.eat).is_some()
        &&& key_label(self.cook).is_some()
        &&& key_label(self.snack).is_some()
        &&& key_label(self.save).is_some()
        &&& key_label(self.quit).is_some()
        &&& key_label(self.end_run).is_some()
        &&& key_label(self.scroll_up).is_some()
        &&& key_label(self.scroll_down).is_some()
        &&& key_label(self.help).is_some()
        &&& key_label(self.options).is_some()
    }

    /// Whether every binding is to a key that has a name in the
    /// configuration text.
    pub fn can_save(&self) -> (b: bool)
        ensures
            b == self.nameable(),
    {
        has_name(self.left)
            && has_name(self.right)
            && has_name(self.up)
            && has_name(self.down)
            && has_name(self.up_left)
            && has_name(self.up_right)
            && has_name(self.down_left)
            && has_name(self.down_right)
            && has_name(self.cast)
            && has_name(self.reel)
            && has_name(self.inventory)
            && has_name(self.eat)
            && has_name(self.cook)
            && has_name(self.snack)
            && has_name(self.save)
            && has_name(self.quit)
            && has_name(self.end_run)
            && has_name(self.scroll_up)
            && has_name(self.scroll_down)
            && has_name(self.help)
            && has_name(self.options)
    }

    /// Reads a configuration from its text. What the text does not set
    /// is as in the default configuration.
    pub fn from_text(data: &str) -> (cfg: InputConfig)
        ensures
            cfg == config_of(data@),
    {
        let text = chars_of(data);
        let lines = split_span(&text, whole(&text), '\n');
        let mut cfg = InputConfig::default();
        let n = lines.len();
        let mut k: usize = 0;
        while k < n
            invariant
                k <= n,
                n == lines@.len(),
                text@ == data@,
                crate::scan::all_within(lines@, text@.len()),
                crate::scan::pieces(text@, lines@) == split(data@, '\n'),
                cfg == config_after(split(data@, '\n'), k as int),
            decreases n - k,
        {
            assert(lines@[k as int].within(text@.len()));
            assert(split(data@, '\n')[k as int] == lines@[k as int].of(text@));
            cfg = apply_line(cfg, &text, lines[k]);
            k += 1;
        }
        cfg
    }

    /// The text of the configuration.
    pub fn to_text(&self) -> (s: String)
        requires
            self.nameable(),
        ensures
            s@ == config_text(*self),
    {
        let mut s = String::new();
        push_binding(&mut s, "left", self.left);
        push_binding(&mut s, "right", self.right);
        push_binding(&mut s, "up", self.up);
        push_binding(&mut s, "down", self.down);
        push_binding(&mut s, "up_left", self.up_left);
        push_binding(&mut s, "up_right", self.up_right);
        push_binding(&mut s, "down_left", self.down_left);
        push_binding(&mut s, "down_right", self.down_right);
        push_binding(&mut s, "cast", self.cast);
        push_binding(&mut s, "reel", self.reel);
        push_binding(&mut s, "inventory", self.inventory);
        push_binding(&mut s, "eat", self.eat);
        push_binding(&mut s, "cook", self.cook);
        push_binding(&mut s, "snack", self.snack);
        push_binding(&mut s, "save", self.save);
        push_binding(&mut s, "quit", self.quit);
        push_binding(&mut s, "end_run", self.end_run);
        push_binding(&mut s, "scroll_up", self.scroll_up);
        push_binding(&mut s, "scroll_down", self.scroll_down);
        push_binding(&mut s, "help", self.help);
        push_binding(&mut s, "options", self.options);
        s.append("colorblind = ");
        s.append(if self.colorblind { "true" } else { "false" });
        s.append("\n");
        s.append("volume = ");
        push_digits(&mut s, self.volume as u64);
        s.append("\n");
        s.append("font_scale = ");
        push_digits(&mut s, self.font_scale as u64);
        s.append("\n");
        assert(s@ =~= config_text(*self));
        s
    }
}

/// Whether a key has a name in the configuration text.
pub fn has_name(key: Key) -> (b: bool)
    ensures
        b == key_label(key).is_some(),
{
    match key {
        Key::Left => true,
        Key::Right => true,
        Key::Up => true,
        Key::Down => true,
        Key::Y => true,
        Key::U => true,
        Key::H => true,
        Key::J => true,
        Key::K => true,
        Key::L => true,
        Key::B => true,
        Key::N => true,
        Key::C => true,
        Key::F => true,
        Key::G => true,
        Key::X => true,
        Key::E => true,
        Key::R => true,
        Key::I => true,
        Key::S => true,
        Key::Q => true,
        Key::Return => true,
        Key::PageUp => true,
        Key::PageDown => true,
        Key::F1 => true,
        Key::O => true,
        _ => false,
    }
}

} // verus!
