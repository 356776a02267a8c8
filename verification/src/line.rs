//! The path of a cast line over the grid.

use crate::common::Point;
use crate::ecology::gap;
use vstd::prelude::*;

verus! {

/// The cells of the discretized line from `(x, y)` to `end`, both included,
/// where the line from `start` to `end` has got as far as `(x, y)` with the
/// error term `err`. Each step moves one cell along an axis, or along both,
/// whichever keeps the path closest to the straight line.
pub open spec fn trace(start: Point, end: Point, x: int, y: int, err: int, fuel: nat) -> Seq<Point>
    decreases fuel,
{
    let here = Point { x: x as i32, y: y as i32 };
    if (x == end.x && y == end.y) || fuel == 0 {
        seq![here]
    } else {
        let dx = gap(end.x as int, start.x as int);
        let dy = -gap(end.y as int, start.y as int);
        let sx: int = if start.x < end.x { 1 } else { -1 };
        let sy: int = if start.y < end.y { 1 } else { -1 };
        let along_x = 2 * err >= dy;
        let along_y = 2 * err <= dx;
        let x1 = if along_x { x + sx } else { x };
        let y1 = if along_y { y + sy } else { y };
        let err1 = err + (if along_x { dy } else { 0 }) + (if along_y { dx } else { 0 });
        seq![here] + trace(start, end, x1, y1, err1, (fuel - 1) as nat)
    }
}

/// The cells of the discretized line from `start` to `end`, both included.
pub open spec fn line_cells(start: Point, end: Point) -> Seq<Point> {
    let dx = gap(end.x as int, start.x as int);
    let dy = gap(end.y as int, start.y as int);
    trace(start, end, start.x as int, start.y as int, dx - dy, (dx + dy) as nat)
}

/// A walk of `k` unit steps from `from` towards `to` stays between the two
/// and arrives exactly when `k` is their distance.
pub proof fn lemma_walk(from: int, to: int, k: int)
    requires
        0 <= k <= gap(to, from),
    ensures
        ({
            let s: int = if from < to { 1 } else { -1 };
            &&& from <= from + s * k <= to || to <= from + s * k <= from
            &&& from + s * k == to <==> k == gap(to, from)
        }),
{
    let s: int = if from < to { 1 } else { -1 };
    if from < to {
        assert(s * k == k) by (nonlinear_arith)
            requires
                s == 1,
        ;
    } else {
        assert(s * k == -k) by (nonlinear_arith)
            requires
                s == -1,
        ;
    }
}

/// Whether `p` lies in the rectangle spanned by `a` and `b`.
pub open spec fn between(a: Point, b: Point, p: Point) -> bool {
    &&& (a.x <= p.x <= b.x || b.x <= p.x <= a.x)
    &&& (a.y <= p.y <= b.y || b.y <= p.y <= a.y)
}

/// Whether two cells are neighbours: different, and at most one step
/// apart on either axis.
pub open spec fn adjacent(a: Point, b: Point) -> bool {
    a != b && gap(a.x as int, b.x as int) <= 1 && gap(a.y as int, b.y as int) <= 1
}

/// The cells of the discretized line from `start` to `end`, without
/// `start` itself. The path leads from a neighbour of `start` to `end`,
/// each cell a neighbour of the one before, stays in the rectangle that
/// the two cells span, and is empty where they are the same cell.
pub fn line_path(start: Point, end: Point) -> (path: Vec<Point>)
    ensures
        path@ == line_cells(start, end).drop_first(),
        start == end ==> path@.len() == 0,
        start != end ==> path@.len() > 0 && path@.last() == end && adjacent(start, path@[0]),
        path@.len() <= gap(end.x as int, start.x as int) + gap(end.y as int, start.y as int),
        forall|k: int| 0 <= k < path@.len() ==> between(start, end, #[trigger] path@[k]),
        forall|k: int| 0 < k < path@.len() ==> adjacent(path@[k - 1], #[trigger] path@[k]),
{
    let a: i64 = if end.x >= start.x {
        end.x as i64 - start.x as i64
    } else {
        start.x as i64 - end.x as i64
    };
    let b: i64 = if end.y >= start.y {
        end.y as i64 - start.y as i64
    } else {
        start.y as i64 - end.y as i64
    };
    let sx: i32 = if start.x < end.x { 1 } else { -1 };
    let sy: i32 = if start.y < end.y { 1 } else { -1 };
    let mut x = start.x;
    let mut y = start.y;
    let mut err: i64 = a - b;
    let mut path: Vec<Point> = Vec::new();
    path.push(Point::new(x, y));
    let ghost mut i: int = 0;
    let ghost mut j: int = 0;
    assert(0 * b == 0 && 0 * a == 0) by (nonlinear_arith);
    while !(x == end.x && y == end.y)
        invariant
            a == gap(end.x as int, start.x as int),
            b == gap(end.y as int, start.y as int),
            sx == (if start.x < end.x { 1i32 } else { -1i32 }),
            sy == (if start.y < end.y { 1i32 } else { -1i32 }),
            0 <= i <= a,
            0 <= j <= b,
            x == start.x + sx * i,
            y == start.y + sy * j,
            err == a - b - i * b + j * a,
            a - 3 * b <= 2 * err <= 3 * a - b,
            1 <= path@.len() <= i + j + 1,
            path@[0] == start,
            path@.last() == (Point { x, y }),
            forall|k: int| 0 <= k < path@.len() ==> between(start, end, #[trigger] path@[k]),
            forall|k: int| 0 < k < path@.len() ==> adjacent(path@[k - 1], #[trigger] path@[k]),
            line_cells(start, end) == path@.drop_last() + trace(
                start,
                end,
                x as int,
                y as int,
                err as int,
                ((a - i) + (b - j)) as nat,
            ),
        decreases (a - i) + (b - j),
    {
        let ghost before = path@;
        let ghost fuel = ((a - i) + (b - j)) as nat;
        let ghost x0 = x;
        let ghost y0 = y;
        let ghost err0 = err;
        proof {
            lemma_walk(start.x as int, end.x as int, i);
            lemma_walk(start.y as int, end.y as int, j);
            if i < a {
                lemma_walk(start.x as int, end.x as int, i + 1);
            }
            if j < b {
                lemma_walk(start.y as int, end.y as int, j + 1);
            }
            if i == a {
                assert(j < b);
                assert(a * (1 + j - b) <= 0) by (nonlinear_arith)
                    requires
                        a >= 0,
                        1 + j - b <= 0,
                ;
                assert(a * (1 + j - b) == a - b * a + j * a) by (nonlinear_arith);
                assert(i * b == b * a) by (nonlinear_arith)
                    requires
                        i == a,
                ;
                assert(2 * err < -b);
            }
            if j == b {
                assert(i < a);
                assert(b * (a - 1 - i) >= 0) by (nonlinear_arith)
                    requires
                        b >= 0,
                        a - 1 - i >= 0,
                ;
                assert(b * (a - 1 - i) == b * a - b - i * b) by (nonlinear_arith);
                assert(j * a == b * a) by (nonlinear_arith)
                    requires
                        j == b,
                ;
                assert(2 * err > a);
            }
            assert(fuel >= 1);
        }
        let e2 = 2 * err;
        if e2 >= -b {
            err = err - b;
            x = x + sx;
            proof {
                assert((i + 1) * b == i * b + b) by (nonlinear_arith);
                assert(sx * (i + 1) == sx * i + sx) by (nonlinear_arith);
                i = i + 1;
            }
        }
        if e2 <= a {
            err = err + a;
            y = y + sy;
            proof {
                assert((j + 1) * a == j * a + a) by (nonlinear_arith);
                assert(sy * (j + 1) == sy * j + sy) by (nonlinear_arith);
                j = j + 1;
            }
        }
        path.push(Point::new(x, y));
        proof {
            assert(path@.drop_last() =~= before);
            assert(before =~= before.drop_last() + seq![Point { x: x0, y: y0 }]);
            assert(trace(start, end, x0 as int, y0 as int, err0 as int, fuel) =~= seq![
                Point { x: x0, y: y0 },
            ] + trace(start, end, x as int, y as int, err as int, (fuel - 1) as nat));
            assert(((a - i) + (b - j)) as nat <= fuel - 1);
            lemma_trace_fuel(
                start,
                end,
                x as int,
                y as int,
                err as int,
                i,
                j,
                (fuel - 1) as nat,
            );
        }
    }
    proof {
        assert(trace(start, end, x as int, y as int, err as int, ((a - i) + (b - j)) as nat)
            =~= seq![Point { x, y }]);
        assert(line_cells(start, end) =~= path@);
    }
    let ghost full = path@;
    path.remove(0);
    assert(path@ =~= line_cells(start, end).drop_first());
    assert forall|k: int| 0 < k < path@.len() implies adjacent(path@[k - 1], #[trigger] path@[k]) by {
        assert(path@[k] == full[k + 1]);
        assert(path@[k - 1] == full[k]);
    }
    proof {
        if path@.len() > 0 {
            assert(path@[0] == full[1]);
            assert(full[0] == start);
            assert(adjacent(full[0], full[1]));
        }
    }
    path
}

/// Once the line has taken `i` steps along x and `j` along y, it needs no
/// more fuel than the steps that are left: more fuel gives the same cells.
pub proof fn lemma_trace_fuel(
    start: Point,
    end: Point,
    x: int,
    y: int,
    err: int,
    i: int,
    j: int,
    fuel: nat,
)
    requires
        ({
            let a = gap(end.x as int, start.x as int);
            let b = gap(end.y as int, start.y as int);
            let sx: int = if start.x < end.x { 1 } else { -1 };
            let sy: int = if start.y < end.y { 1 } else { -1 };
            &&& 0 <= i <= a
            &&& 0 <= j <= b
            &&& x == start.x + sx * i
            &&& y == start.y + sy * j
            &&& err == a - b - i * b + j * a
            &&& fuel >= (a - i) + (b - j)
        }),
    ensures
        ({
            let a = gap(end.x as int, start.x as int);
            let b = gap(end.y as int, start.y as int);
            trace(start, end, x, y, err, fuel) == trace(
                start,
                end,
                x,
                y,
                err,
                ((a - i) + (b - j)) as nat,
            )
        }),
    decreases fuel,
{
    let a = gap(end.x as int, start.x as int);
    let b = gap(end.y as int, start.y as int);
    let sx: int = if start.x < end.x { 1 } else { -1 };
    let sy: int = if start.y < end.y { 1 } else { -1 };
    let left = ((a - i) + (b - j)) as nat;
    lemma_walk(start.x as int, end.x as int, i);
    lemma_walk(start.y as int, end.y as int, j);
    if x == end.x && y == end.y {
        assert(i == a && j == b);
    } else if fuel > left {
        assert(left >= 1);
        if i == a {
            assert(a * (1 + j - b) <= 0) by (nonlinear_arith)
                requires
                    a >= 0,
                    1 + j - b <= 0,
            ;
            assert(a * (1 + j - b) == a - b * a + j * a) by (nonlinear_arith);
            assert(i * b == b * a) by (nonlinear_arith)
                requires
                    i == a,
            ;
        }
        if j == b {
            assert(b * (a - 1 - i) >= 0) by (nonlinear_arith)
                requires
                    b >= 0,
                    a - 1 - i >= 0,
            ;
            assert(b * (a - 1 - i) == b * a - b - i * b) by (nonlinear_arith);
            assert(j * a == b * a) by (nonlinear_arith)
                requires
                    j == b,
            ;
        }
        let along_x = 2 * err >= -b;
        let along_y = 2 * err <= a;
        let i1 = if along_x { i + 1 } else { i };
        let j1 = if along_y { j + 1 } else { j };
        let x1 = if along_x { x + sx } else { x };
        let y1 = if along_y { y + sy } else { y };
        let err1 = err + (if along_x { -b } else { 0 }) + (if along_y { a } else { 0 });
        assert((i + 1) * b == i * b + b) by (nonlinear_arith);
        assert((j + 1) * a == j * a + a) by (nonlinear_arith);
        assert(sx * (i + 1) == sx * i + sx) by (nonlinear_arith);
        assert(sy * (j + 1) == sy * j + sy) by (nonlinear_arith);
        lemma_trace_fuel(start, end, x1, y1, err1, i1, j1, (fuel - 1) as nat);
        lemma_trace_fuel(start, end, x1, y1, err1, i1, j1, (left - 1) as nat);
    }
}

} // verus!
