//! What of a session is on screen, and how it is shown.

use crate::common::Point;
use crate::game::{LurhookGame, VIEW_HEIGHT, VIEW_WIDTH};
use crate::mapgen::TileKind;
use vstd::prelude::*;

verus! {

/// How well fed the player is, for the colour of the hunger bar.
#[derive(Clone, Copy, Debug, PartialEq, Eq, Structural)]
pub enum HungerBand {
    /// Above 60.
    Fed,
    /// Above 30, up to 60.
    Hungry,
    /// Up to 30.
    Starving,
}

/// How well fed a player of the given hunger level is.
pub fn hunger_band(hunger: i32) -> (band: HungerBand)
    ensures
        band == if hunger > 60 {
            HungerBand::Fed
        } else if hunger > 30 {
            HungerBand::Hungry
        } else {
            HungerBand::Starving
        },
{
    if hunger > 60 {
        HungerBand::Fed
    } else if hunger > 30 {
        HungerBand::Hungry
    } else {
        HungerBand::Starving
    }
}

/// The character that stands for a tile on the map.
pub fn tile_glyph(tile: TileKind) -> (glyph: char)
    ensures
        glyph == match tile {
            TileKind::Land => '.',
            TileKind::ShallowWater => '~',
            TileKind::DeepWater => '\u{2248}',
        },
{
    match tile {
        TileKind::Land => '.',
        TileKind::ShallowWater => '~',
        TileKind::DeepWater => '\u{2248}',
    }
}

/// The character that stands for cell `index` of a cast path of `len`
/// cells: a float at the end of the line, and a star along it.
pub fn cast_glyph(index: usize, len: usize) -> (glyph: char)
    ensures
        glyph == if index + 1 == len {
            'o'
        } else {
            '*'
        },
{
    if len > 0 && index == len - 1 {
        'o'
    } else {
        '*'
    }
}

impl LurhookGame {
    /// Where on the screen the cell `pt` of the map is shown, if it lies
    /// in the part of the map that is on screen.
    pub open spec fn screen_place(self, pt: Point) -> Option<(int, int)> {
        let cam = self.camera_at();
        if cam.0 <= pt.x < cam.0 + VIEW_WIDTH && cam.1 <= pt.y < cam.1 + VIEW_HEIGHT {
            Some((pt.x - cam.0, pt.y - cam.1))
        } else {
            None
        }
    }

    /// Where on the screen the cell `pt` of the map is shown, if it lies
    /// in the part of the map that is on screen.
    pub fn screen_cell(&self, pt: Point) -> (r: Option<(i32, i32)>)
        requires
            self.map.width >= VIEW_WIDTH,
            self.map.height >= VIEW_HEIGHT,
            self.map.width <= i32::MAX,
            self.map.height <= i32::MAX,
        ensures
            match r {
                Some((x, y)) => self.screen_place(pt) == Some((x as int, y as int)) && 0 <= x
                    < VIEW_WIDTH && 0 <= y < VIEW_HEIGHT,
                None => self.screen_place(pt).is_none(),
            },
    {
        let (cam_x, cam_y) = self.camera();
        if pt.x >= cam_x && (pt.x as i64) < cam_x as i64 + VIEW_WIDTH as i64 && pt.y >= cam_y && (
        pt.y as i64) < cam_y as i64 + VIEW_HEIGHT as i64 {
            Some((pt.x - cam_x, pt.y - cam_y))
        } else {
            None
        }
    }

    /// How many cells of the cast path are drawn: as many as the
    /// animation has reached, and none without a path.
    pub fn cast_cells_shown(&self) -> (n: usize)
        ensures
            n == match self.cast_path {
                Some(path) => if self.cast_step < path@.len() {
                    self.cast_step
                } else {
                    path@.len() as usize
                },
                None => 0,
            },
    {
        match &self.cast_path {
            Some(path) => if self.cast_step < path.len() {
                self.cast_step
            } else {
                path.len()
            },
            None => 0,
        }
    }
}

} // verus!
