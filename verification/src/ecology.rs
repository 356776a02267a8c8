//! Fish population: spawning and movement.

use crate::common::{clamp, clamp_i64, same_text, GameError, GameResult, Point};
use crate::data::FishType;
use crate::mapgen::GameMap;
use crate::random::roll;
use bracket_lib::prelude::RandomNumberGenerator;
use vstd::prelude::*;

verus! {

/// A live fish.
#[derive(Debug)]
pub struct Fish {
    pub kind: FishType,
    pub position: Point,
}

impl Clone for Fish {
    fn clone(&self) -> (r: Self)
        ensures
            r == *self,
    {
        Fish { kind: self.kind.clone(), position: self.position }
    }
}

/// Taxicab distance within which fish of one species school.
pub const SCHOOL_RADIUS: i32 = 4;

/// Distance between two numbers.
pub open spec fn gap(a: int, b: int) -> int {
    if a >= b {
        a - b
    } else {
        b - a
    }
}

/// Taxicab distance between two cells.
pub open spec fn manhattan(a: Point, b: Point) -> int {
    gap(a.x as int, b.x as int) + gap(a.y as int, b.y as int)
}

/// Sign of a number: -1, 0 or 1.
pub open spec fn signum(v: int) -> int {
    if v > 0 {
        1
    } else if v < 0 {
        -1
    } else {
        0
    }
}

/// Cells a fish may move per axis in one turn: two at night, one otherwise.
pub open spec fn speed_at(time_of_day: Seq<char>) -> int {
    if time_of_day == "Night"@ {
        2
    } else {
        1
    }
}

/// Whether fish `j` is another fish of the species of fish `i` within
/// schooling distance of it.
pub open spec fn schoolmate(fishes: Seq<Fish>, i: int, j: int) -> bool {
    &&& 0 <= j < fishes.len()
    &&& j != i
    &&& fishes[j].kind.id@ == fishes[i].kind.id@
    &&& manhattan(fishes[j].position, fishes[i].position) <= SCHOOL_RADIUS
}

/// Whether fish `j` is the schoolmate that fish `i` swims towards: the
/// nearest one, and among equally near ones the first.
pub open spec fn leads(fishes: Seq<Fish>, i: int, j: int) -> bool {
    &&& schoolmate(fishes, i, j)
    &&& forall|k: int| #[trigger]
        schoolmate(fishes, i, k) ==> {
            let dj = manhattan(fishes[j].position, fishes[i].position);
            let dk = manhattan(fishes[k].position, fishes[i].position);
            dj < dk || (dj == dk && j <= k)
        }
}

/// No two fish lead the same fish.
pub proof fn lemma_leader_unique(fishes: Seq<Fish>, i: int, j: int, k: int)
    requires
        leads(fishes, i, j),
        leads(fishes, i, k),
    ensures
        j == k,
{
    assert(schoolmate(fishes, i, j));
    assert(schoolmate(fishes, i, k));
}

/// Unit step per axis towards the schoolmate that leads fish `i`, or no step
/// where it has none.
pub open spec fn school_pull(fishes: Seq<Fish>, i: int) -> (int, int) {
    if exists|j: int| leads(fishes, i, j) {
        let j = choose|j: int| leads(fishes, i, j);
        (
            signum(fishes[j].position.x - fishes[i].position.x),
            signum(fishes[j].position.y - fishes[i].position.y),
        )
    } else {
        (0, 0)
    }
}

/// Cell that fish `i` heads for: its random step, biased by schooling and
/// drift, held within the speed per axis and then within the map.
pub open spec fn candidate(
    map: GameMap,
    fishes: Seq<Fish>,
    i: int,
    step: (int, int),
    speed: int,
    drift: Point,
) -> Point {
    let pos = fishes[i].position;
    let pull = school_pull(fishes, i);
    let dx = clamp(step.0 + pull.0 + drift.x, -speed, speed);
    let dy = clamp(step.1 + pull.1 + drift.y, -speed, speed);
    Point {
        x: clamp(pos.x + dx, 0, map.width - 1) as i32,
        y: clamp(pos.y + dy, 0, map.height - 1) as i32,
    }
}

/// Where fish `i` is after its move: at the cell it heads for if that is
/// water, and where it was otherwise.
pub open spec fn moved(
    map: GameMap,
    fishes: Seq<Fish>,
    i: int,
    step: (int, int),
    speed: int,
    drift: Point,
) -> Point {
    let c = candidate(map, fishes, i, step, speed, drift);
    if map.tile_at(c).is_water() {
        c
    } else {
        fishes[i].position
    }
}

/// The population after the first `n` fish have moved in turn, fish `k` by
/// the random step `steps[k]`. A fish that moves later sees the earlier
/// ones where they have moved to.
pub open spec fn after_moves(
    map: GameMap,
    fishes: Seq<Fish>,
    steps: Seq<(int, int)>,
    speed: int,
    drift: Point,
    n: int,
) -> Seq<Fish>
    decreases n,
{
    if n <= 0 {
        fishes
    } else {
        let before = after_moves(map, fishes, steps, speed, drift, n - 1);
        before.update(
            n - 1,
            Fish {
                kind: before[n - 1].kind,
                position: moved(map, before, n - 1, steps[n - 1], speed, drift),
            },
        )
    }
}

/// Whether `steps` holds one random step per fish, each within the speed
/// per axis.
pub open spec fn steps_within(steps: Seq<(int, int)>, n: int, speed: int) -> bool {
    &&& steps.len() == n
    &&& forall|k: int|
        0 <= k < n ==> {
            &&& -speed <= (#[trigger] steps[k]).0 <= speed
            &&& -speed <= steps[k].1 <= speed
        }
}

/// A fish that moves lands on water inside the map, at most `speed` cells
/// away per axis; a fish that does not move stays where it was.
pub proof fn lemma_move_stays_on_water(
    map: GameMap,
    fishes: Seq<Fish>,
    i: int,
    step: (int, int),
    speed: int,
    drift: Point,
)
    requires
        map.wf(),
        map.width >= 1,
        map.height >= 1,
        0 <= i < fishes.len(),
        speed >= 0,
    ensures
        ({
            let from = fishes[i].position;
            let to = moved(map, fishes, i, step, speed, drift);
            &&& to == from || map.is_water(to)
            &&& map.in_bounds(from) ==> gap(to.x as int, from.x as int) <= speed && gap(
                to.y as int,
                from.y as int,
            ) <= speed
        }),
{
}

/// What `after_moves` keeps: the number of fish and the species of each.
/// Fish that have not moved yet are where they were, and each fish that has
/// moved is where it was or on water inside the map.
pub proof fn lemma_after_moves(
    map: GameMap,
    fishes: Seq<Fish>,
    steps: Seq<(int, int)>,
    speed: int,
    drift: Point,
    n: int,
)
    requires
        map.wf(),
        map.width >= 1,
        map.height >= 1,
        0 <= n <= fishes.len(),
        speed >= 0,
    ensures
        ({
            let after = after_moves(map, fishes, steps, speed, drift, n);
            &&& after.len() == fishes.len()
            &&& forall|k: int| 0 <= k < fishes.len() ==> (#[trigger] after[k]).kind == fishes[k].kind
            &&& forall|k: int| n <= k < fishes.len() ==> #[trigger] after[k] == fishes[k]
            &&& forall|k: int|
                0 <= k < fishes.len() ==> (#[trigger] after[k]).position == fishes[k].position
                    || map.is_water(after[k].position)
        }),
    decreases n,
{
    if n > 0 {
        lemma_after_moves(map, fishes, steps, speed, drift, n - 1);
        let before = after_moves(map, fishes, steps, speed, drift, n - 1);
        lemma_move_stays_on_water(map, before, n - 1, steps[n - 1], speed, drift);
    }
}

/// A fish never covers less ground at night than by day: for one random
/// step, if the cell the fish heads for at night is water, the fish ends at
/// least as far from where it was, on either axis, as it does by day.
pub proof fn lemma_night_not_slower(
    map: GameMap,
    fishes: Seq<Fish>,
    i: int,
    step: (int, int),
    drift: Point,
)
    requires
        map.wf(),
        map.width >= 1,
        map.height >= 1,
        0 <= i < fishes.len(),
        map.in_bounds(fishes[i].position),
        map.tile_at(candidate(map, fishes, i, step, speed_at("Night"@), drift)).is_water(),
    ensures
        ({
            let from = fishes[i].position;
            let day = moved(map, fishes, i, step, speed_at("Day"@), drift);
            let night = moved(map, fishes, i, step, speed_at("Night"@), drift);
            &&& gap(night.x as int, from.x as int) >= gap(day.x as int, from.x as int)
            &&& gap(night.y as int, from.y as int) >= gap(day.y as int, from.y as int)
        }),
{
    reveal_strlit("Night");
    reveal_strlit("Day");
    assert("Night"@.len() == 5);
    assert("Day"@.len() == 3);
    assert(speed_at("Night"@) == 2);
    assert(speed_at("Day"@) == 1);
}

/// Taxicab distance between two cells.
pub fn distance(a: Point, b: Point) -> (d: i64)
    ensures
        d == manhattan(a, b),
{
    let dx: i64 = if a.x >= b.x {
        a.x as i64 - b.x as i64
    } else {
        b.x as i64 - a.x as i64
    };
    let dy: i64 = if a.y >= b.y {
        a.y as i64 - b.y as i64
    } else {
        b.y as i64 - a.y as i64
    };
    dx + dy
}

/// Finds the schoolmate that fish `i` swims towards, if it has one.
pub fn find_leader(fishes: &[Fish], i: usize) -> (r: Option<usize>)
    requires
        i < fishes@.len(),
    ensures
        match r {
            Some(j) => leads(fishes@, i as int, j as int),
            None => forall|k: int| !schoolmate(fishes@, i as int, k),
        },
{
    let n = fishes.len();
    let pos = fishes[i].position;
    let mut best: Option<usize> = None;
    let mut best_d: i64 = 0;
    let mut j: usize = 0;
    while j < n
        invariant
            j <= n,
            n == fishes@.len(),
            i < n,
            pos == fishes@[i as int].position,
            match best {
                Some(b) => {
                    &&& b < j
                    &&& schoolmate(fishes@, i as int, b as int)
                    &&& best_d == manhattan(fishes@[b as int].position, pos)
                    &&& forall|k: int|
                        0 <= k < j && #[trigger] schoolmate(fishes@, i as int, k) ==> {
                            let dk = manhattan(fishes@[k].position, pos);
                            best_d < dk || (best_d == dk && b <= k)
                        }
                },
                None => forall|k: int| 0 <= k < j ==> !schoolmate(fishes@, i as int, k),
            },
        decreases n - j,
    {
        if j != i && fishes[j].kind.id == fishes[i].kind.id {
            let d = distance(fishes[j].position, pos);
            if d <= SCHOOL_RADIUS as i64 {
                let closer = match best {
                    Some(_) => d < best_d,
                    None => true,
                };
                if closer {
                    best = Some(j);
                    best_d = d;
                }
            }
        }
        j += 1;
    }
    best
}

/// Moves fish `i` by the random step `(step_x, step_y)` and returns where it
/// ends up.
pub fn step_fish(
    map: &GameMap,
    fishes: &[Fish],
    i: usize,
    step_x: i32,
    step_y: i32,
    speed: i32,
    drift: Point,
) -> (p: Point)
    requires
        map.wf(),
        map.width >= 1,
        map.height >= 1,
        i < fishes@.len(),
        speed >= 0,
    ensures
        p == moved(*map, fishes@, i as int, (step_x as int, step_y as int), speed as int, drift),
{
    let pos = fishes[i].position;
    let mut pull_x: i64 = 0;
    let mut pull_y: i64 = 0;
    match find_leader(fishes, i) {
        Some(j) => {
            proof {
                let w = choose|w: int| leads(fishes@, i as int, w);
                lemma_leader_unique(fishes@, i as int, j as int, w);
            }
            let mate = fishes[j].position;
            pull_x = if mate.x > pos.x { 1 } else if mate.x < pos.x { -1 } else { 0 };
            pull_y = if mate.y > pos.y { 1 } else if mate.y < pos.y { -1 } else { 0 };
        },
        None => {
            assert forall|w: int| !leads(fishes@, i as int, w) by {
                assert(!schoolmate(fishes@, i as int, w));
            }
        },
    }
    let dx = clamp_i64(step_x as i64 + pull_x + drift.x as i64, -(speed as i64), speed as i64);
    let dy = clamp_i64(step_y as i64 + pull_y + drift.y as i64, -(speed as i64), speed as i64);
    let x = clamp_i64(pos.x as i64 + dx, 0, map.width as i64 - 1);
    let y = clamp_i64(pos.y as i64 + dy, 0, map.height as i64 - 1);
    let target = Point::new(x as i32, y as i32);
    if map.tile(target).water() {
        target
    } else {
        pos
    }
}

/// Moves every fish once, in order. Each fish takes a random step of up to
/// `speed` cells per axis (two at night, one otherwise), biased by one cell
/// towards its nearest schoolmate and by the drift of the current, and goes
/// there only if the cell is water.
pub fn update_fish(
    map: &GameMap,
    fishes: &mut [Fish],
    rng: &mut RandomNumberGenerator,
    time_of_day: &str,
    drift: Point,
) -> (r: GameResult<()>)
    requires
        map.wf(),
        old(fishes)@.len() > 0 ==> map.width >= 1 && map.height >= 1,
    ensures
        r is Ok,
        final(fishes)@.len() == old(fishes)@.len(),
        exists|steps: Seq<(int, int)>|
            steps_within(steps, old(fishes)@.len() as int, speed_at(time_of_day@))
                && final(fishes)@ == #[trigger] after_moves(
                *map,
                old(fishes)@,
                steps,
                speed_at(time_of_day@),
                drift,
                old(fishes)@.len() as int,
            ),
        forall|k: int|
            0 <= k < old(fishes)@.len() ==> (#[trigger] final(fishes)@[k]).kind == old(
                fishes,
            )@[k].kind,
        forall|k: int|
            0 <= k < old(fishes)@.len() ==> (#[trigger] final(fishes)@[k]).position == old(
                fishes,
            )@[k].position || map.is_water(final(fishes)@[k].position),
        forall|k: int|
            0 <= k < old(fishes)@.len() && map.is_water(old(fishes)@[k].position)
                ==> map.is_water((#[trigger] final(fishes)@[k]).position),
{
    let speed: i32 = if same_text(time_of_day, "Night") { 2 } else { 1 };
    let n = fishes.len();
    let ghost start = fishes@;
    let ghost mut steps: Seq<(int, int)> = Seq::empty();
    let mut i: usize = 0;
    while i < n
        invariant
            i <= n,
            n == start.len(),
            map.wf(),
            n > 0 ==> map.width >= 1 && map.height >= 1,
            speed == speed_at(time_of_day@),
            steps_within(steps, i as int, speed as int),
            fishes@ == after_moves(*map, start, steps, speed as int, drift, i as int),
        decreases n - i,
    {
        let step_x = roll(rng, -speed, speed + 1);
        let step_y = roll(rng, -speed, speed + 1);
        proof {
            lemma_after_moves(*map, start, steps, speed as int, drift, i as int);
        }
        let ghost before = fishes@;
        let target = step_fish(map, fishes, i, step_x, step_y, speed, drift);
        fishes[i].position = target;
        proof {
            let longer = steps.push((step_x as int, step_y as int));
            lemma_after_moves_prefix(*map, start, steps, longer, speed as int, drift, i as int);
            steps = longer;
            assert(fishes@ =~= after_moves(*map, start, steps, speed as int, drift, i + 1));
        }
        i += 1;
    }
    proof {
        if n > 0 {
            lemma_after_moves(*map, start, steps, speed as int, drift, n as int);
        }
    }
    Ok(())
}

/// Moves that agree on the first `n` steps give the same population after
/// `n` fish have moved.
pub proof fn lemma_after_moves_prefix(
    map: GameMap,
    fishes: Seq<Fish>,
    a: Seq<(int, int)>,
    b: Seq<(int, int)>,
    speed: int,
    drift: Point,
    n: int,
)
    requires
        0 <= n <= a.len(),
        n <= b.len(),
        forall|k: int| 0 <= k < n ==> a[k] == b[k],
    ensures
        after_moves(map, fishes, a, speed, drift, n) == after_moves(map, fishes, b, speed, drift, n),
    decreases n,
{
    if n > 0 {
        lemma_after_moves_prefix(map, fishes, a, b, speed, drift, n - 1);
    }
}

/// The cell with the given row-major index.
pub open spec fn cell_at(map: GameMap, i: int) -> Point {
    Point { x: (i % (map.width as int)) as i32, y: (i / (map.width as int)) as i32 }
}

/// The water cells among the first `n` cells of the map, in row-major order.
pub open spec fn water_cells(map: GameMap, n: int) -> Seq<Point>
    decreases n,
{
    if n <= 0 {
        Seq::empty()
    } else {
        let rest = water_cells(map, n - 1);
        if map.tiles@[n - 1].is_water() {
            rest.push(cell_at(map, n - 1))
        } else {
            rest
        }
    }
}

/// All water cells of the map, in row-major order.
pub open spec fn all_water(map: GameMap) -> Seq<Point> {
    water_cells(map, map.tiles@.len() as int)
}

/// Whether `cells` are water cells of the map, no cell twice.
pub open spec fn distinct_water(map: GameMap, cells: Seq<Point>) -> bool {
    &&& forall|a: int| 0 <= a < cells.len() ==> map.is_water(#[trigger] cells[a])
    &&& forall|a: int, b: int| 0 <= a < b < cells.len() ==> cells[a] != cells[b]
}

/// The cell with index `i` is a cell of the map, and `i` is its index.
pub proof fn lemma_cell_at(map: GameMap, i: int)
    requires
        map.wf(),
        0 <= i < map.tiles@.len(),
    ensures
        map.in_bounds(cell_at(map, i)),
        map.index_of(cell_at(map, i)) == i,
{
    let w = map.width as int;
    let h = map.height as int;
    assert(w > 0) by (nonlinear_arith)
        requires
            0 <= i < w * h,
            w >= 0,
    ;
    vstd::arithmetic::div_mod::lemma_fundamental_div_mod(i, w);
    vstd::arithmetic::div_mod::lemma_mod_pos_bound(i, w);
    vstd::arithmetic::div_mod::lemma_div_pos_is_pos(i, w);
    vstd::arithmetic::div_mod::lemma_multiply_divide_lt(i, w, h);
    assert(w * (i / w) == (i / w) * w) by (nonlinear_arith);
}

/// The water cells among the first `n` cells are water cells with an index
/// below `n`, in the order of their indexes, and there are none exactly
/// when none of the first `n` tiles is water.
pub proof fn lemma_water_cells(map: GameMap, n: int)
    requires
        map.wf(),
        0 <= n <= map.tiles@.len(),
    ensures
        ({
            let cells = water_cells(map, n);
            &&& cells.len() <= n
            &&& distinct_water(map, cells)
            &&& forall|a: int| 0 <= a < cells.len() ==> map.index_of(#[trigger] cells[a]) < n
            &&& forall|a: int, b: int|
                0 <= a < b < cells.len() ==> map.index_of(#[trigger] cells[a]) < map.index_of(
                    #[trigger] cells[b],
                )
            &&& cells.len() == 0 <==> forall|i: int|
                0 <= i < n ==> !(#[trigger] map.tiles@[i]).is_water()
        }),
    decreases n,
{
    if n > 0 {
        lemma_water_cells(map, n - 1);
        lemma_cell_at(map, n - 1);
        let rest = water_cells(map, n - 1);
        let cells = water_cells(map, n);
        if map.tiles@[n - 1].is_water() {
            assert(cells.len() > 0);
            assert forall|a: int, b: int| 0 <= a < b < cells.len() implies map.index_of(
                #[trigger] cells[a],
            ) < map.index_of(#[trigger] cells[b]) by {
                if b < rest.len() {
                    assert(cells[a] == rest[a]);
                    assert(cells[b] == rest[b]);
                } else {
                    assert(cells[a] == rest[a]);
                }
            }
            assert forall|a: int| 0 <= a < cells.len() implies map.is_water(
                #[trigger] cells[a],
            ) && map.index_of(cells[a]) < n by {
                if a < rest.len() {
                    assert(cells[a] == rest[a]);
                }
            }
        }
    }
}

/// A map holds water exactly when its list of water cells is not empty.
pub proof fn lemma_has_water(map: GameMap)
    requires
        map.wf(),
    ensures
        map.has_water() <==> all_water(map).len() > 0,
{
    lemma_water_cells(map, map.tiles@.len() as int);
}

/// Lists the water cells of the map, row by row.
pub fn water_tiles(map: &GameMap) -> (water: Vec<Point>)
    requires
        map.wf(),
    ensures
        water@ == all_water(*map),
        distinct_water(*map, water@),
        water@.len() <= map.width * map.height,
{
    let mut water: Vec<Point> = Vec::new();
    let w = map.width;
    let h = map.height;
    let mut y: u32 = 0;
    let mut k: usize = 0;
    assert(0 * w == 0) by (nonlinear_arith);
    while y < h
        invariant
            map.wf(),
            w == map.width,
            h == map.height,
            y <= h,
            k == y * w,
            water@ == water_cells(*map, k as int),
        decreases h - y,
    {
        let mut x: u32 = 0;
        while x < w
            invariant
                map.wf(),
                w == map.width,
                h == map.height,
                y < h,
                x <= w,
                k == y * w + x,
                water@ == water_cells(*map, k as int),
            decreases w - x,
        {
            assert(y * w + x < w * h) by (nonlinear_arith)
                requires
                    0 <= y < h,
                    0 <= x < w,
            ;
            if map.tiles[k].water() {
                water.push(Point::new(x as i32, y as i32));
            }
            proof {
                vstd::arithmetic::div_mod::lemma_fundamental_div_mod_converse(
                    k as int,
                    w as int,
                    y as int,
                    x as int,
                );
            }
            x += 1;
            k += 1;
        }
        assert(y * w + w == (y + 1) * w) by (nonlinear_arith);
        y += 1;
    }
    proof {
        assert(h * w == w * h) by (nonlinear_arith);
        lemma_water_cells(*map, k as int);
    }
    water
}

/// Sum of the rarity weights of the first `n` species.
pub open spec fn rarity_sum(types: Seq<FishType>, n: int) -> int
    decreases n,
{
    if n <= 0 {
        0
    } else {
        rarity_sum(types, n - 1) + types[n - 1].rarity
    }
}

/// Sum of the rarity weights of all species.
pub open spec fn total_rarity(types: Seq<FishType>) -> int {
    rarity_sum(types, types.len() as int)
}

/// Whether a roll from `0..total_rarity` selects species `i`: the roll falls
/// into the stretch of the weights' running sum that belongs to `i`.
pub open spec fn selects(types: Seq<FishType>, roll: int, i: int) -> bool {
    &&& 0 <= i < types.len()
    &&& rarity_sum(types, i) <= roll < rarity_sum(types, i + 1)
}

/// The running sum of the weights never goes down.
pub proof fn lemma_rarity_sum_monotonic(types: Seq<FishType>, a: int, b: int)
    requires
        0 <= a <= b,
    ensures
        0 <= rarity_sum(types, a) <= rarity_sum(types, b),
    decreases b,
{
    if b > a {
        lemma_rarity_sum_monotonic(types, a, b - 1);
    } else if a > 0 {
        lemma_rarity_sum_monotonic(types, a - 1, a - 1);
    }
}

/// Whether fish can be sampled from the species: the rarity weights add
/// up to a positive number that fits in `i32`.
pub open spec fn sampleable(types: Seq<FishType>) -> bool {
    0 < total_rarity(types) <= i32::MAX
}

/// Whether fish can be sampled from the species.
pub fn can_sample(types: &[FishType]) -> (b: bool)
    ensures
        b == sampleable(types@),
{
    let n = types.len();
    let mut total: i64 = 0;
    let mut i: usize = 0;
    while i < n
        invariant
            i <= n,
            n == types@.len(),
            total == rarity_sum(types@, i as int),
            0 <= total <= i32::MAX,
        decreases n - i,
    {
        proof {
            lemma_rarity_sum_monotonic(types@, i + 1, n as int);
        }
        total = total + types[i].rarity as i64;
        if total > i32::MAX as i64 {
            return false;
        }
        i += 1;
    }
    total > 0
}

/// Adds up the rarity weights of all species.
pub fn sum_rarity(types: &[FishType]) -> (total: i32)
    requires
        total_rarity(types@) <= i32::MAX,
    ensures
        total == total_rarity(types@),
{
    let n = types.len();
    let mut total: i64 = 0;
    let mut i: usize = 0;
    while i < n
        invariant
            i <= n,
            n == types@.len(),
            total == rarity_sum(types@, i as int),
            0 <= total <= i32::MAX,
            total_rarity(types@) <= i32::MAX,
        decreases n - i,
    {
        proof {
            lemma_rarity_sum_monotonic(types@, i + 1, n as int);
        }
        total = total + types[i].rarity as i64;
        i += 1;
    }
    total as i32
}

/// Picks the species that a roll from `0..total_rarity` selects, so that a
/// species is picked in proportion to its weight.
pub fn pick_species(types: &[FishType], roll: i32) -> (i: usize)
    requires
        0 <= roll < total_rarity(types@),
    ensures
        selects(types@, roll as int, i as int),
{
    let n = types.len();
    let mut acc: i64 = 0;
    let mut i: usize = 0;
    loop
        invariant
            i < n,
            n == types@.len(),
            acc == rarity_sum(types@, i as int),
            acc <= roll < total_rarity(types@),
        decreases n - i,
    {
        proof {
            lemma_rarity_sum_monotonic(types@, i + 1, n as int);
            if i + 1 == n {
                assert(roll < rarity_sum(types@, i + 1));
            }
        }
        acc = acc + types[i].rarity as i64;
        if (roll as i64) < acc {
            return i;
        }
        i += 1;
    }
}

/// Indexes, among the first `n` cells of `water`, of those whose depth suits
/// the species, in order.
pub open spec fn suitable(map: GameMap, water: Seq<Point>, kind: FishType, n: int) -> Seq<usize>
    decreases n,
{
    if n <= 0 {
        Seq::empty()
    } else {
        let rest = suitable(map, water, kind, n - 1);
        if kind.lives_at(map.depth_at(water[n - 1])) {
            rest.push((n - 1) as usize)
        } else {
            rest
        }
    }
}

/// `suitable` lists cells that suit the species, and has an entry whenever
/// one of the first `n` cells suits it.
pub proof fn lemma_suitable(map: GameMap, water: Seq<Point>, kind: FishType, n: int)
    requires
        0 <= n <= water.len(),
        n <= usize::MAX,
    ensures
        ({
            let found = suitable(map, water, kind, n);
            &&& found.len() <= n
            &&& forall|c: int|
                0 <= c < found.len() ==> (#[trigger] found[c]) < n && kind.lives_at(
                    map.depth_at(water[found[c] as int]),
                )
            &&& (exists|a: int| 0 <= a < n && kind.lives_at(map.depth_at(#[trigger] water[a])))
                ==> found.len() > 0
        }),
    decreases n,
{
    if n > 0 {
        lemma_suitable(map, water, kind, n - 1);
        let rest = suitable(map, water, kind, n - 1);
        let found = suitable(map, water, kind, n);
        if kind.lives_at(map.depth_at(water[n - 1])) {
            assert forall|c: int| 0 <= c < found.len() implies (#[trigger] found[c]) < n
                && kind.lives_at(map.depth_at(water[found[c] as int])) by {
                if c < rest.len() {
                    assert(found[c] == rest[c]);
                }
            }
        }
    }
}

/// Lists the indexes of the cells of `water` whose depth suits the species.
pub fn depth_candidates(map: &GameMap, water: &Vec<Point>, kind: &FishType) -> (found: Vec<usize>)
    requires
        map.wf(),
        forall|a: int| 0 <= a < water@.len() ==> map.in_bounds(#[trigger] water@[a]),
    ensures
        found@ == suitable(*map, water@, *kind, water@.len() as int),
{
    let n = water.len();
    let mut found: Vec<usize> = Vec::new();
    let mut a: usize = 0;
    while a < n
        invariant
            a <= n,
            n == water@.len(),
            map.wf(),
            forall|b: int| 0 <= b < water@.len() ==> map.in_bounds(#[trigger] water@[b]),
            found@ == suitable(*map, water@, *kind, a as int),
        decreases n - a,
    {
        if kind.suits_depth(map.depth(water[a])) {
            found.push(a);
        }
        a += 1;
    }
    found
}

/// Whether a spawned fish is in order: it sits on a water cell whose depth
/// suits its species, and its species is one of those on offer.
pub open spec fn placed(map: GameMap, types: Seq<FishType>, fish: Fish) -> bool {
    &&& map.is_water(fish.position)
    &&& fish.kind.lives_at(map.depth_at(fish.position))
    &&& exists|t: int| 0 <= t < types.len() && #[trigger] types[t] == fish.kind
}

/// Whether every water cell of the map suits every species on offer.
pub open spec fn all_suit(map: GameMap, types: Seq<FishType>) -> bool {
    forall|t: int, p: Point|
        0 <= t < types.len() && map.is_water(p) ==> (#[trigger] types[t]).lives_at(
            #[trigger] map.depth_at(p),
        )
}

/// Whether `fishes` is a population that spawning `count` fish may give:
/// at most `count` fish and at most one per water cell, each in order, and
/// no two on one cell. Where every water cell suits every species, no
/// attempt fails, and the population is as large as `count` and the water
/// allow.
pub open spec fn spawned(map: GameMap, types: Seq<FishType>, count: int, fishes: Seq<Fish>) -> bool {
    &&& fishes.len() <= count
    &&& fishes.len() <= all_water(map).len()
    &&& forall|k: int| 0 <= k < fishes.len() ==> placed(map, types, #[trigger] fishes[k])
    &&& forall|k: int, l: int|
        0 <= k < l < fishes.len() ==> (#[trigger] fishes[k]).position != (
        #[trigger] fishes[l]).position
    &&& all_suit(map, types) ==> fishes.len() == count || fishes.len() == all_water(map).len()
}

/// Whether the pool of free water cells and the fish placed so far fit
/// together: free cells are water cells, no cell twice, and none holds a
/// fish.
pub open spec fn pool_ok(map: GameMap, water: Seq<Point>, fishes: Seq<Fish>) -> bool {
    &&& distinct_water(map, water)
    &&& forall|a: int, k: int|
        0 <= a < water.len() && 0 <= k < fishes.len() ==> (#[trigger] water[a]) != (
        #[trigger] fishes[k]).position
    &&& forall|k: int, l: int|
        0 <= k < l < fishes.len() ==> (#[trigger] fishes[k]).position != (
        #[trigger] fishes[l]).position
}

/// Takes the free cell `water[at]` out of the pool and puts a fish of the
/// given species on it.
pub fn place_fish(
    map: &GameMap,
    water: &mut Vec<Point>,
    fishes: &mut Vec<Fish>,
    kind: &FishType,
    at: usize,
)
    requires
        at < old(water)@.len(),
        pool_ok(*map, old(water)@, old(fishes)@),
    ensures
        final(water)@ == old(water)@.update(at as int, old(water)@.last()).drop_last(),
        final(fishes)@ == old(fishes)@.push(Fish { kind: *kind, position: old(water)@[at as int] }),
        pool_ok(*map, final(water)@, final(fishes)@),
{
    let ghost before = water@;
    let pos = water.swap_remove(at);
    fishes.push(Fish { kind: kind.clone(), position: pos });
    proof {
        let after = water@;
        assert forall|a: int| 0 <= a < after.len() implies (exists|b: int|
            0 <= b < before.len() && b != at && before[b] == #[trigger] after[a]) by {
            if a == at {
                assert(before[before.len() - 1] == after[a]);
            } else {
                assert(before[a] == after[a]);
            }
        }
        assert forall|a: int, b: int| 0 <= a < b < after.len() implies after[a] != after[b] by {
            let a0 = if a == at { before.len() - 1 } else { a };
            let b0 = if b == at { before.len() - 1 } else { b };
            assert(after[a] == before[a0]);
            assert(after[b] == before[b0]);
        }
        assert forall|a: int| 0 <= a < after.len() implies map.is_water(#[trigger] after[a]) by {
            let a0 = if a == at { before.len() - 1 } else { a };
            assert(after[a] == before[a0]);
        }
        assert forall|a: int, k: int| 0 <= a < after.len() && 0 <= k < fishes@.len() implies (
        #[trigger] after[a]) != (#[trigger] fishes@[k]).position by {
            let a0 = if a == at { before.len() - 1 } else { a };
            assert(after[a] == before[a0]);
            if k == fishes@.len() - 1 {
                assert(fishes@[k].position == before[at as int]);
            } else {
                assert(fishes@[k] == old(fishes)@[k]);
            }
        }
        assert forall|k: int, l: int| 0 <= k < l < fishes@.len() implies (
        #[trigger] fishes@[k]).position != (#[trigger] fishes@[l]).position by {
            assert(fishes@[k] == old(fishes)@[k]);
            if l == fishes@.len() - 1 {
                assert(fishes@[l].position == before[at as int]);
            } else {
                assert(fishes@[l] == old(fishes)@[l]);
            }
        }
    }
}

/// Spawns up to `count` fish on water cells, no two on one cell, with
/// draws from the given generator. Each attempt picks a species in
/// proportion to its rarity weight and puts a fish of it on a free water
/// cell whose depth suits the species, chosen at random; where no free
/// cell suits, the attempt is spent and no cell used. After ten attempts
/// per fish asked for, or when the water is used up, the population is
/// returned as it is, so it may hold fewer than `count` fish. Fails only
/// on a map without water.
pub fn spawn_fish_population_with(
    map: &GameMap,
    fish_types: &[FishType],
    count: usize,
    rng: &mut RandomNumberGenerator,
) -> (r: GameResult<Vec<Fish>>)
    requires
        map.wf(),
        map.width * map.height <= i32::MAX,
        count * 10 <= usize::MAX,
        map.has_water() && count > 0 ==> sampleable(fish_types@),
    ensures
        !map.has_water() ==> r matches Err(GameError::InvalidOperation),
        map.has_water() ==> (r matches Ok(fishes) && spawned(
            *map,
            fish_types@,
            count as int,
            fishes@,
        )),
{
    let mut water = water_tiles(map);
    proof {
        lemma_has_water(*map);
    }
    if water.is_empty() {
        return Err(GameError::InvalidOperation);
    }
    let mut fishes: Vec<Fish> = Vec::new();
    if count == 0 {
        return Ok(fishes);
    }
    let total = sum_rarity(fish_types);
    let max_attempts = count * 10;
    let mut attempts: usize = 0;
    let ghost cells = water@.len();
    while fishes.len() < count && attempts < max_attempts && !water.is_empty()
        invariant
            map.wf(),
            cells == all_water(*map).len(),
            total == total_rarity(fish_types@),
            total > 0,
            max_attempts == count * 10,
            attempts <= max_attempts,
            fishes@.len() <= count,
            fishes@.len() <= attempts,
            water@.len() + fishes@.len() == cells,
            water@.len() <= i32::MAX,
            pool_ok(*map, water@, fishes@),
            forall|k: int| 0 <= k < fishes@.len() ==> placed(*map, fish_types@, #[trigger] fishes@[k]),
            all_suit(*map, fish_types@) ==> fishes@.len() == attempts,
        decreases max_attempts - attempts,
    {
        attempts += 1;
        let species_roll = roll(rng, 0, total);
        let chosen = pick_species(fish_types, species_roll);
        let candidates = depth_candidates(map, &water, &fish_types[chosen]);
        proof {
            lemma_suitable(*map, water@, fish_types@[chosen as int], water@.len() as int);
            if all_suit(*map, fish_types@) {
                assert(map.is_water(water@[0]));
                assert(fish_types@[chosen as int].lives_at(map.depth_at(water@[0])));
            }
        }
        if !candidates.is_empty() {
            let pick = roll(rng, 0, candidates.len() as i32);
            let at = candidates[pick as usize];
            let ghost position = water@[at as int];
            let ghost earlier = fishes@;
            place_fish(map, &mut water, &mut fishes, &fish_types[chosen], at);
            proof {
                let fish = fishes@[fishes@.len() - 1];
                assert(fish.position == position);
                assert(fish_types@[chosen as int] == fish.kind);
                assert(placed(*map, fish_types@, fish));
                assert forall|k: int| 0 <= k < fishes@.len() implies placed(
                    *map,
                    fish_types@,
                    #[trigger] fishes@[k],
                ) by {
                    if k < fishes@.len() - 1 {
                        assert(fishes@[k] == earlier[k]);
                    }
                }
            }
        }
    }
    Ok(fishes)
}

/// Spawns up to `count` fish as `spawn_fish_population_with` does, with
/// draws from a generator of its own that is seeded by the system.
pub fn spawn_fish_population(map: &mut GameMap, fish_types: &[FishType], count: usize) -> (r:
    GameResult<Vec<Fish>>)
    requires
        old(map).wf(),
        old(map).width * old(map).height <= i32::MAX,
        count * 10 <= usize::MAX,
        old(map).has_water() && count > 0 ==> sampleable(fish_types@),
    ensures
        *final(map) == *old(map),
        !old(map).has_water() ==> r matches Err(GameError::InvalidOperation),
        old(map).has_water() ==> (r matches Ok(fishes) && spawned(
            *old(map),
            fish_types@,
            count as int,
            fishes@,
        )),
{
    let mut rng = RandomNumberGenerator::new();
    spawn_fish_population_with(map, fish_types, count, &mut rng)
}

/// Spawns a single fish. Fails on a map without water, and when no fish
/// could be placed within the ten attempts.
pub fn spawn_fish(map: &mut GameMap, fish_types: &[FishType]) -> (r: GameResult<Fish>)
    requires
        old(map).wf(),
        old(map).width * old(map).height <= i32::MAX,
        old(map).has_water() ==> sampleable(fish_types@),
    ensures
        *final(map) == *old(map),
        match r {
            Ok(fish) => placed(*old(map), fish_types@, fish),
            Err(e) => e is InvalidOperation,
        },
        !old(map).has_water() ==> r is Err,
        old(map).has_water() && all_suit(*old(map), fish_types@) ==> r is Ok,
{
    let mut fishes = spawn_fish_population(map, fish_types, 1)?;
    proof {
        lemma_has_water(*map);
    }
    if fishes.len() == 0 {
        return Err(GameError::InvalidOperation);
    }
    Ok(fishes.remove(0))
}

} // verus!
