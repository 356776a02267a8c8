//! Keys and what they are bound to.

use crate::common::Point;
use vstd::prelude::*;

verus! {

/// A key of the keyboard, as far as the game tells keys apart.
#[derive(Clone, Copy, Debug, PartialEq, Eq, Structural)]
pub enum Key {
    Left,
    Right,
    Up,
    Down,
    Y,
    U,
    H,
    J,
    K,
    L,
    B,
    N,
    C,
    F,
    G,
    X,
    E,
    R,
    I,
    S,
    Q,
    Return,
    PageUp,
    PageDown,
    F1,
    O,
    Z,
    Plus,
    Minus,
    LBracket,
    RBracket,
    Key1,
    Key2,
    Key3,
    /// Any other key.
    Other,
}

/// What a key does in the options menu, where the keys are fixed.
#[derive(Clone, Copy, Debug, PartialEq, Eq, Structural)]
pub enum MenuKey {
    /// Switches the high-contrast palette on or off.
    Colorblind,
    VolumeUp,
    VolumeDown,
    FontSmaller,
    FontLarger,
    /// Binds casting to the next key in its cycle.
    CastKey,
    /// A key without meaning in the menu.
    Other,
}

/// A pressed key, as the bindings see it: each flag says whether the key
/// is bound to that action. A key can be bound to several actions, and
/// then the first one that applies wins.
#[derive(Clone, Copy, Debug, PartialEq, Eq, Structural)]
pub struct KeyPress {
    pub cast: bool,
    pub reel: bool,
    pub scroll_up: bool,
    pub scroll_down: bool,
    pub help: bool,
    pub options: bool,
    /// What the key does in the options menu.
    pub menu: MenuKey,
    pub save: bool,
    pub quit: bool,
    pub end_run: bool,
    pub inventory: bool,
    pub eat: bool,
    pub cook: bool,
    pub snack: bool,
    /// The step that the key stands for, and no step for any other key.
    pub delta: Point,
}

/// The key bindings and the player's options.
#[derive(Clone, Copy, Debug, PartialEq, Eq, Structural)]
pub struct InputConfig {
    pub left: Key,
    pub right: Key,
    pub up: Key,
    pub down: Key,
    pub up_left: Key,
    pub up_right: Key,
    pub down_left: Key,
    pub down_right: Key,
    pub cast: Key,
    pub reel: Key,
    pub inventory: Key,
    pub eat: Key,
    pub cook: Key,
    pub snack: Key,
    pub save: Key,
    pub quit: Key,
    pub end_run: Key,
    pub scroll_up: Key,
    pub scroll_down: Key,
    pub help: Key,
    pub options: Key,
    /// Use the high-contrast palette.
    pub colorblind: bool,
    /// Volume level from 0 to 10.
    pub volume: u8,
    /// Font scale from 1 to 4.
    pub font_scale: u8,
}

/// Volume that a new configuration starts with.
pub const DEFAULT_VOLUME: u8 = 5;

/// The bindings and options that a player starts with.
pub open spec fn default_config() -> InputConfig {
    InputConfig {
        left: Key::H,
        right: Key::L,
        up: Key::K,
        down: Key::J,
        up_left: Key::Y,
        up_right: Key::U,
        down_left: Key::B,
        down_right: Key::N,
        cast: Key::C,
        reel: Key::R,
        inventory: Key::I,
        eat: Key::X,
        cook: Key::F,
        snack: Key::G,
        save: Key::S,
        quit: Key::Q,
        end_run: Key::Return,
        scroll_up: Key::PageUp,
        scroll_down: Key::PageDown,
        help: Key::F1,
        options: Key::O,
        colorblind: false,
        volume: DEFAULT_VOLUME,
        font_scale: 1,
    }
}

impl Default for InputConfig {
    fn default() -> (cfg: Self)
        ensures
            cfg == default_config(),
    {
        InputConfig {
            left: Key::H,
            right: Key::L,
            up: Key::K,
            down: Key::J,
            up_left: Key::Y,
            up_right: Key::U,
            down_left: Key::B,
            down_right: Key::N,
            cast: Key::C,
            reel: Key::R,
            inventory: Key::I,
            eat: Key::X,
            cook: Key::F,
            snack: Key::G,
            save: Key::S,
            quit: Key::Q,
            end_run: Key::Return,
            scroll_up: Key::PageUp,
            scroll_down: Key::PageDown,
            help: Key::F1,
            options: Key::O,
            colorblind: false,
            volume: DEFAULT_VOLUME,
            font_scale: 1,
        }
    }
}

/// What a key does in the options menu.
pub open spec fn menu_meaning(key: Key) -> MenuKey {
    match key {
        Key::C => MenuKey::Colorblind,
        Key::Plus => MenuKey::VolumeUp,
        Key::Minus => MenuKey::VolumeDown,
        Key::LBracket => MenuKey::FontSmaller,
        Key::RBracket => MenuKey::FontLarger,
        Key::Key1 => MenuKey::CastKey,
        _ => MenuKey::Other,
    }
}

/// The key that casting is bound to after the cast key was cycled: from C
/// to X to Z and back to C, and C from any other key.
pub open spec fn next_cast_key(key: Key) -> Key {
    match key {
        Key::C => Key::X,
        Key::X => Key::Z,
        _ => Key::C,
    }
}

/// The key that casting is bound to after the cast key was cycled.
pub fn cycle_cast(key: Key) -> (next: Key)
    ensures
        next == next_cast_key(key),
{
    match key {
        Key::C => Key::X,
        Key::X => Key::Z,
        _ => Key::C,
    }
}

impl InputConfig {
    /// The step that a key stands for: the arrow keys and the keys bound
    /// to the eight directions, straight ones before diagonal ones, and
    /// no step for any other key.
    pub open spec fn step_of(self, key: Key) -> Point {
        if key == Key::Left || key == self.left {
            Point { x: -1i32, y: 0 }
        } else if key == Key::Right || key == self.right {
            Point { x: 1, y: 0 }
        } else if key == Key::Up || key == self.up {
            Point { x: 0, y: -1i32 }
        } else if key == Key::Down || key == self.down {
            Point { x: 0, y: 1 }
        } else if key == self.up_left {
            Point { x: -1i32, y: -1i32 }
        } else if key == self.up_right {
            Point { x: 1, y: -1i32 }
        } else if key == self.down_left {
            Point { x: -1i32, y: 1 }
        } else if key == self.down_right {
            Point { x: 1, y: 1 }
        } else {
            Point { x: 0, y: 0 }
        }
    }

    /// A key as the bindings see it.
    pub open spec fn seen(self, key: Key) -> KeyPress {
        KeyPress {
            cast: key == self.cast,
            reel: key == self.reel,
            scroll_up: key == self.scroll_up,
            scroll_down: key == self.scroll_down,
            help: key == self.help,
            options: key == self.options,
            menu: menu_meaning(key),
            save: key == self.save,
            quit: key == self.quit,
            end_run: key == self.end_run,
            inventory: key == self.inventory,
            eat: key == self.eat,
            cook: key == self.cook,
            snack: key == self.snack,
            delta: self.step_of(key),
        }
    }

    /// Looks a key up in the bindings.
    pub fn press(&self, key: Key) -> (p: KeyPress)
        ensures
            p == self.seen(key),
    {
        let menu = match key {
            Key::C => MenuKey::Colorblind,
            Key::Plus => MenuKey::VolumeUp,
            Key::Minus => MenuKey::VolumeDown,
            Key::LBracket => MenuKey::FontSmaller,
            Key::RBracket => MenuKey::FontLarger,
            Key::Key1 => MenuKey::CastKey,
            _ => MenuKey::Other,
        };
        let delta = if key == Key::Left || key == self.left {
            Point::new(-1, 0)
        } else if key == Key::Right || key == self.right {
            Point::new(1, 0)
        } else if key == Key::Up || key == self.up {
            Point::new(0, -1)
        } else if key == Key::Down || key == self.down {
            Point::new(0, 1)
        } else if key == self.up_left {
            Point::new(-1, -1)
        } else if key == self.up_right {
            Point::new(1, -1)
        } else if key == self.down_left {
            Point::new(-1, 1)
        } else if key == self.down_right {
            Point::new(1, 1)
        } else {
            Point::new(0, 0)
        };
        KeyPress {
            cast: key == self.cast,
            reel: key == self.reel,
            scroll_up: key == self.scroll_up,
            scroll_down: key == self.scroll_down,
            help: key == self.help,
            options: key == self.options,
            menu,
            save: key == self.save,
            quit: key == self.quit,
            end_run: key == self.end_run,
            inventory: key == self.inventory,
            eat: key == self.eat,
            cook: key == self.cook,
            snack: key == self.snack,
            delta,
        }
    }
}

} // verus!
