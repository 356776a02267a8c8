//! Terrain: the tile grid and how it is made from a noise field.

use crate::common::{GameResult, Point};
use vstd::prelude::*;

verus! {

/// Terrain of one map cell.
#[derive(Clone, Copy, Debug, PartialEq, Eq, Structural)]
pub enum TileKind {
    /// Walkable land.
    Land,
    /// Shallow water, where fish can spawn.
    ShallowWater,
    /// Deep water.
    DeepWater,
}

impl TileKind {
    /// Whether fish can swim on the tile.
    pub open spec fn is_water(self) -> bool {
        self != TileKind::Land
    }

    /// Whether fish can swim on the tile.
    pub fn water(self) -> (b: bool)
        ensures
            b == self.is_water(),
    {
        match self {
            TileKind::Land => false,
            TileKind::ShallowWater => true,
            TileKind::DeepWater => true,
        }
    }
}

/// A grid of tiles with the water depth of each, both stored row by row:
/// the cell `(x, y)` is at index `y * width + x`.
#[derive(Clone, Debug)]
pub struct GameMap {
    pub width: u32,
    pub height: u32,
    pub tiles: Vec<TileKind>,
    /// Depth in meters of each cell.
    pub depths: Vec<i32>,
}

impl GameMap {
    /// Both arrays cover the grid, and every cell has `i32` coordinates.
    pub open spec fn wf(self) -> bool {
        &&& self.width <= i32::MAX
        &&& self.height <= i32::MAX
        &&& self.width * self.height <= u32::MAX
        &&& self.tiles@.len() == self.width * self.height
        &&& self.depths@.len() == self.width * self.height
    }

    /// Whether `pt` is a cell of the grid.
    pub open spec fn in_bounds(self, pt: Point) -> bool {
        0 <= pt.x < self.width && 0 <= pt.y < self.height
    }

    /// Row-major index of a cell.
    pub open spec fn index_of(self, pt: Point) -> int {
        pt.y * self.width + pt.x
    }

    /// Terrain of a cell.
    pub open spec fn tile_at(self, pt: Point) -> TileKind {
        self.tiles@[self.index_of(pt)]
    }

    /// Depth of a cell.
    pub open spec fn depth_at(self, pt: Point) -> int {
        self.depths@[self.index_of(pt)] as int
    }

    /// Whether `pt` is a cell of the grid that holds water.
    pub open spec fn is_water(self, pt: Point) -> bool {
        self.in_bounds(pt) && self.tile_at(pt).is_water()
    }

    /// Whether the grid holds any water at all.
    pub open spec fn has_water(self) -> bool {
        exists|i: int| 0 <= i < self.tiles@.len() && (#[trigger] self.tiles@[i]).is_water()
    }

    /// Depths are never negative, and land has depth zero.
    pub open spec fn depths_valid(self) -> bool {
        forall|i: int|
            0 <= i < self.depths@.len() && i < self.tiles@.len() ==> {
                &&& #[trigger] self.depths@[i] >= 0
                &&& self.tiles@[i] == TileKind::Land ==> self.depths@[i] == 0
            }
    }

    /// The index of a cell of the grid lies inside both arrays.
    pub proof fn lemma_index_in_range(self, pt: Point)
        requires
            self.wf(),
            self.in_bounds(pt),
        ensures
            0 <= self.index_of(pt) < self.tiles@.len(),
            self.index_of(pt) < self.depths@.len(),
    {
        assert(pt.y * self.width <= (self.height - 1) * self.width) by (nonlinear_arith)
            requires
                0 <= pt.y <= self.height - 1,
                0 <= self.width,
        ;
        assert((self.height - 1) * self.width == self.height * self.width - self.width)
            by (nonlinear_arith);
        assert(self.height * self.width == self.width * self.height) by (nonlinear_arith);
        assert(0 <= pt.y * self.width) by (nonlinear_arith)
            requires
                0 <= pt.y,
                0 <= self.width,
        ;
    }

    /// A map of the given size that is all land.
    pub fn new(width: u32, height: u32) -> (m: Self)
        requires
            width * height <= u32::MAX,
        ensures
            m.width == width,
            m.height == height,
            m.tiles@ == Seq::new((width * height) as nat, |i: int| TileKind::Land),
            m.depths@ == Seq::new((width * height) as nat, |i: int| 0i32),
            width <= i32::MAX && height <= i32::MAX ==> m.wf(),
            m.depths_valid(),
            !m.has_water(),
    {
        let n = (width * height) as usize;
        let mut tiles: Vec<TileKind> = Vec::new();
        let mut depths: Vec<i32> = Vec::new();
        let mut i: usize = 0;
        while i < n
            invariant
                i <= n,
                tiles@ == Seq::new(i as nat, |k: int| TileKind::Land),
                depths@ == Seq::new(i as nat, |k: int| 0i32),
            decreases n - i,
        {
            tiles.push(TileKind::Land);
            depths.push(0);
            i += 1;
        }
        Self { width, height, tiles, depths }
    }

    /// Index of a cell in the two arrays.
    pub fn idx(&self, pt: Point) -> (i: usize)
        requires
            pt.x >= 0,
            pt.y >= 0,
            self.index_of(pt) <= usize::MAX,
        ensures
            i == self.index_of(pt),
    {
        assert(0 <= pt.y * self.width) by (nonlinear_arith)
            requires
                0 <= pt.y,
                0 <= self.width,
        ;
        (pt.y as usize) * (self.width as usize) + pt.x as usize
    }

    /// Depth in meters of a cell of the grid.
    pub fn depth(&self, pt: Point) -> (d: i32)
        requires
            self.wf(),
            self.in_bounds(pt),
        ensures
            d == self.depth_at(pt),
    {
        proof {
            self.lemma_index_in_range(pt);
        }
        self.depths[self.idx(pt)]
    }

    /// Terrain of a cell of the grid.
    pub fn tile(&self, pt: Point) -> (t: TileKind)
        requires
            self.wf(),
            self.in_bounds(pt),
        ensures
            t == self.tile_at(pt),
    {
        proof {
            self.lemma_index_in_range(pt);
        }
        self.tiles[self.idx(pt)]
    }

    /// Whether `pt` is a cell of the grid.
    pub fn contains(&self, pt: Point) -> (b: bool)
        requires
            self.wf(),
        ensures
            b == self.in_bounds(pt),
    {
        pt.x >= 0 && pt.y >= 0 && (pt.x as u32) < self.width && (pt.y as u32) < self.height
    }
}

/// Scale of a noise sample: the noise value times this, rounded down.
pub const NOISE_SCALE: i32 = 10_000;

/// Samples below this are deep water: a noise value under -0.2.
pub const DEEP_BELOW: i32 = -2000;

/// A coherent-noise field sampled once per map cell, row by row, for one
/// seed. Each sample is the noise value at the cell in ten-thousandths,
/// rounded down.
#[derive(Clone, Debug)]
pub struct NoiseField {
    pub seed: u64,
    pub width: u32,
    pub height: u32,
    pub samples: Vec<i32>,
}

impl NoiseField {
    /// There is one sample for each cell.
    pub open spec fn wf(self) -> bool {
        &&& self.width * self.height <= u32::MAX
        &&& self.samples@.len() == self.width * self.height
    }
}

/// Terrain at a cell with the given noise sample: deep water below -0.2,
/// shallow water from there up to zero, land from zero on.
pub open spec fn tile_for(sample: int) -> TileKind {
    if sample < DEEP_BELOW {
        TileKind::DeepWater
    } else if sample < 0 {
        TileKind::ShallowWater
    } else {
        TileKind::Land
    }
}

/// Depth in meters at a cell with the given noise sample: a hundred times
/// the negated noise value, rounded to the nearest meter, and zero on land.
pub open spec fn depth_for(sample: int) -> int {
    if sample < 0 {
        (50 - sample) / 100
    } else {
        0
    }
}

/// Terrain at a cell with the given noise sample.
pub fn classify(sample: i32) -> (t: TileKind)
    ensures
        t == tile_for(sample as int),
{
    if sample < DEEP_BELOW {
        TileKind::DeepWater
    } else if sample < 0 {
        TileKind::ShallowWater
    } else {
        TileKind::Land
    }
}

/// Depth in meters at a cell with the given noise sample.
pub fn sample_depth(sample: i32) -> (d: i32)
    ensures
        d == depth_for(sample as int),
        d >= 0,
        tile_for(sample as int) == TileKind::Land ==> d == 0,
{
    if sample < 0 {
        ((50i64 - sample as i64) / 100) as i32
    } else {
        0
    }
}

/// Tiles of the map that a noise field gives.
pub open spec fn terrain_tiles(samples: Seq<i32>) -> Seq<TileKind> {
    Seq::new(samples.len(), |i: int| tile_for(samples[i] as int))
}

/// Depths of the map that a noise field gives.
pub open spec fn terrain_depths(samples: Seq<i32>) -> Seq<i32> {
    Seq::new(samples.len(), |i: int| depth_for(samples[i] as int) as i32)
}

/// Turns a noise field into a map of the same size. Generation cannot fail.
pub fn generate(field: &NoiseField) -> (r: GameResult<GameMap>)
    requires
        field.wf(),
    ensures
        r matches Ok(map) && {
            &&& map.width == field.width
            &&& map.height == field.height
            &&& map.tiles@ == terrain_tiles(field.samples@)
            &&& map.depths@ == terrain_depths(field.samples@)
            &&& map.depths_valid()
            &&& field.width <= i32::MAX && field.height <= i32::MAX ==> map.wf()
        },
{
    let n = field.samples.len();
    let mut tiles: Vec<TileKind> = Vec::new();
    let mut depths: Vec<i32> = Vec::new();
    let mut i: usize = 0;
    while i < n
        invariant
            i <= n,
            n == field.samples@.len(),
            tiles@ == terrain_tiles(field.samples@.subrange(0, i as int)),
            depths@ == terrain_depths(field.samples@.subrange(0, i as int)),
        decreases n - i,
    {
        let sample = field.samples[i];
        tiles.push(classify(sample));
        depths.push(sample_depth(sample));
        i += 1;
    }
    assert(field.samples@.subrange(0, n as int) == field.samples@);
    Ok(GameMap { width: field.width, height: field.height, tiles, depths })
}

/// Generation is a function of the noise field alone: equal fields give
/// equal tiles and equal depths.
pub proof fn lemma_generate_deterministic(a: NoiseField, b: NoiseField)
    requires
        a.samples@ == b.samples@,
    ensures
        terrain_tiles(a.samples@) == terrain_tiles(b.samples@),
        terrain_depths(a.samples@) == terrain_depths(b.samples@),
{
}

} // verus!
