//! The message log and the text of the panels.

use crate::common::GameResult;
use crate::data::FishType;
use vstd::prelude::*;
use vstd::string::StringExecFns;

verus! {

/// Lines of the log that are shown at once.
pub const LOG_WINDOW: usize = 8;

/// Cells in a tension or hunger bar.
pub const BAR_WIDTH: usize = 10;

/// Which panel the screen shows.
#[derive(Clone, Copy, Debug, PartialEq, Eq, Structural)]
pub enum UILayout {
    /// Exploration.
    Standard,
    /// The fishing mini-game.
    Fishing,
    /// The inventory list.
    Inventory,
    /// Help and controls.
    Help,
    /// The options menu.
    Options,
}

/// The message log, how far it is scrolled back, and the current panel.
#[derive(Debug)]
pub struct UIContext {
    pub logs: Vec<String>,
    /// Lines scrolled back from the newest.
    pub scroll: usize,
    pub layout: UILayout,
}

impl Default for UIContext {
    /// An empty log, not scrolled, on the standard panel.
    fn default() -> (ui: Self)
        ensures
            ui.logs@.len() == 0,
            ui.scroll == 0,
            ui.layout == UILayout::Standard,
    {
        Self { logs: Vec::new(), scroll: 0, layout: UILayout::Standard }
    }
}

impl UIContext {
    /// Whether the log of `self` is that of `before` with the messages
    /// `msgs` added at the end, scrolled as it was.
    pub open spec fn said(self, before: UIContext, msgs: Seq<Seq<char>>) -> bool {
        &&& self.logs@.len() == before.logs@.len() + msgs.len()
        &&& forall|k: int| 0 <= k < before.logs@.len() ==> self.logs@[k] == before.logs@[k]
        &&& forall|k: int|
            0 <= k < msgs.len() ==> (#[trigger] self.logs@[before.logs@.len() + k])@ == msgs[k]
        &&& self.scroll == before.scroll
    }

    /// Switches to the given panel.
    pub fn set_layout(&mut self, layout: UILayout)
        ensures
            *final(self) == (UIContext { layout, ..*old(self) }),
    {
        self.layout = layout;
    }

    /// The current panel.
    pub fn layout(&self) -> (l: UILayout)
        ensures
            l == self.layout,
    {
        self.layout
    }

    /// Appends a message to the log.
    pub fn add_log(&mut self, msg: &str) -> (r: GameResult<()>)
        ensures
            r is Ok,
            final(self).said(*old(self), seq![msg@]),
            final(self).layout == old(self).layout,
    {
        self.logs.push(String::from_str(msg));
        Ok(())
    }

    /// Whether the log can be scrolled back one more line: a full window
    /// of older lines must be left.
    pub open spec fn can_scroll_up(self) -> bool {
        self.scroll + LOG_WINDOW < self.logs@.len()
    }

    /// Scrolls the log one line back, if there is an older line to show.
    pub fn scroll_up(&mut self)
        ensures
            final(self).scroll == if old(self).can_scroll_up() {
                old(self).scroll + 1
            } else {
                old(self).scroll as int
            },
            final(self).logs == old(self).logs,
            final(self).layout == old(self).layout,
    {
        let n = self.logs.len();
        if n > LOG_WINDOW && self.scroll < n - LOG_WINDOW {
            self.scroll += 1;
        }
    }

    /// Scrolls the log one line forward, if it is scrolled back.
    pub fn scroll_down(&mut self)
        ensures
            final(self).scroll == if old(self).scroll > 0 {
                old(self).scroll - 1
            } else {
                0
            },
            final(self).logs == old(self).logs,
            final(self).layout == old(self).layout,
    {
        if self.scroll > 0 {
            self.scroll -= 1;
        }
    }

    /// The stretch of the log that is on screen: it ends `scroll` lines
    /// before the newest line and is at most a window long.
    pub open spec fn window(self) -> (int, int) {
        let len = self.logs@.len() as int;
        let start = if len >= LOG_WINDOW + self.scroll {
            len - LOG_WINDOW - self.scroll
        } else {
            0
        };
        let end = if start + LOG_WINDOW <= len {
            start + LOG_WINDOW
        } else {
            len
        };
        (start, end)
    }

    /// First and one-past-last index of the log lines that are on screen.
    pub fn log_window(&self) -> (w: (usize, usize))
        ensures
            (w.0 as int, w.1 as int) == self.window(),
            w.0 <= w.1 <= self.logs@.len(),
    {
        let len = self.logs.len();
        let start = if len >= LOG_WINDOW && len - LOG_WINDOW >= self.scroll {
            len - LOG_WINDOW - self.scroll
        } else {
            0
        };
        let end = if len - start >= LOG_WINDOW {
            start + LOG_WINDOW
        } else {
            len
        };
        (start, end)
    }
}

/// Cells of a bar that are filled when it shows `value` out of `max`: ten
/// times the ratio, rounded to the nearest cell, and none for a value
/// below zero.
pub open spec fn bar_fill(value: int, max: int) -> int {
    if value <= 0 {
        0
    } else {
        (20 * value + max) / (2 * max)
    }
}

/// Whether a bar can show `value` out of `max`: the maximum is positive
/// and the value fills no more than the ten cells.
pub fn bar_fill_fits(value: i32, max: i32) -> (b: bool)
    ensures
        b == (max > 0 && bar_fill(value as int, max as int) <= BAR_WIDTH),
{
    max > 0 && (value <= 0 || (20 * (value as i64) + max as i64) / (2 * (max as i64)) <= 10)
}

/// Text of a bar with `filled` of its ten cells filled.
pub open spec fn bar_text(filled: int) -> Seq<char> {
    seq!['['] + Seq::new(filled as nat, |i: int| '#') + Seq::new(
        (BAR_WIDTH - filled) as nat,
        |i: int| '-',
    ) + seq![']']
}

/// Draws `value` out of `max` as a bar of ten cells in square brackets,
/// filled cells as `#` and empty ones as `-`.
pub fn tension_bar_string(tension: i32, max: i32) -> (bar: String)
    requires
        max > 0,
        bar_fill(tension as int, max as int) <= BAR_WIDTH,
    ensures
        bar@ == bar_text(bar_fill(tension as int, max as int)),
{
    let filled: usize = if tension <= 0 {
        0
    } else {
        ((20 * (tension as i64) + max as i64) / (2 * (max as i64))) as usize
    };
    proof {
        reveal_strlit("[");
        reveal_strlit("#");
        reveal_strlit("-");
        reveal_strlit("]");
    }
    let mut bar = String::from_str("[");
    let mut i: usize = 0;
    while i < filled
        invariant
            i <= filled <= BAR_WIDTH,
            "#"@ == seq!['#'],
            bar@ == seq!['['] + Seq::new(i as nat, |k: int| '#'),
        decreases filled - i,
    {
        bar.append("#");
        i += 1;
        assert(bar@ =~= seq!['['] + Seq::new(i as nat, |k: int| '#'));
    }
    let mut j: usize = 0;
    while j < BAR_WIDTH - filled
        invariant
            j <= BAR_WIDTH - filled,
            filled <= BAR_WIDTH,
            "-"@ == seq!['-'],
            bar@ == seq!['['] + Seq::new(filled as nat, |k: int| '#') + Seq::new(
                j as nat,
                |k: int| '-',
            ),
        decreases BAR_WIDTH - filled - j,
    {
        bar.append("-");
        j += 1;
        assert(bar@ =~= seq!['['] + Seq::new(filled as nat, |k: int| '#') + Seq::new(
            j as nat,
            |k: int| '-',
        ));
    }
    bar.append("]");
    assert(bar@ =~= bar_text(filled as int));
    bar
}

/// Draws the hunger level as a bar, like the tension.
pub fn hunger_bar_string(hunger: i32, max: i32) -> (bar: String)
    requires
        max > 0,
        bar_fill(hunger as int, max as int) <= BAR_WIDTH,
    ensures
        bar@ == bar_text(bar_fill(hunger as int, max as int)),
{
    tension_bar_string(hunger, max)
}

/// Lines of the inventory panel for the fish carried.
pub open spec fn inventory_text(items: Seq<FishType>) -> Seq<Seq<char>> {
    if items.len() == 0 {
        seq!["(empty)"@]
    } else {
        Seq::new(items.len(), |i: int| items[i].name@)
    }
}

/// The text of each line.
pub open spec fn texts(lines: Seq<String>) -> Seq<Seq<char>> {
    Seq::new(lines.len(), |i: int| lines[i]@)
}

/// Lines of the inventory panel: the name of each fish carried, or a note
/// that there is none.
pub fn inventory_strings(items: &[FishType]) -> (lines: Vec<String>)
    ensures
        texts(lines@) == inventory_text(items@),
{
    let n = items.len();
    let mut lines: Vec<String> = Vec::new();
    if n == 0 {
        lines.push(String::from_str("(empty)"));
        assert(texts(lines@) =~= inventory_text(items@));
        return lines;
    }
    let mut i: usize = 0;
    while i < n
        invariant
            i <= n,
            n == items@.len(),
            lines@.len() == i,
            forall|k: int| 0 <= k < i ==> lines@[k]@ == items@[k].name@,
        decreases n - i,
    {
        lines.push(items[i].name.clone());
        i += 1;
    }
    assert(texts(lines@) =~= inventory_text(items@));
    lines
}

/// Lines of the help panel.
pub open spec fn help_text() -> Seq<Seq<char>> {
    seq![
        "Controls:"@,
        "Arrow keys / hjkl: Move"@,
        "c: Cast line"@,
        "r: Reel"@,
        "i: Inventory"@,
        "F1: Toggle this help"@,
        "Esc/Q: Quit"@,
    ]
}

/// Lines of the help panel.
pub fn help_strings() -> (lines: Vec<String>)
    ensures
        texts(lines@) == help_text(),
{
    let mut lines: Vec<String> = Vec::new();
    lines.push(String::from_str("Controls:"));
    lines.push(String::from_str("Arrow keys / hjkl: Move"));
    lines.push(String::from_str("c: Cast line"));
    lines.push(String::from_str("r: Reel"));
    lines.push(String::from_str("i: Inventory"));
    lines.push(String::from_str("F1: Toggle this help"));
    lines.push(String::from_str("Esc/Q: Quit"));
    assert(texts(lines@) =~= help_text());
    lines
}

} // verus!
