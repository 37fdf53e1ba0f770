use vstd::prelude::*;

verus! {

/// Side of one grid cell, in pixels.
pub const CELL_SIZE: u32 = 30;

/// Number of cells along each side of the grid.
pub const GRID_SIZE: u32 = 20;

/// Pixels the player moves per tick.
pub const PACMAN_SPEED: u32 = 5;

/// Width of the drawing surface, in pixels.
pub const SCREEN_WIDTH: u32 = 800;

/// Height of the drawing surface, in pixels.
pub const SCREEN_HEIGHT: u32 = 600;

/// Smallest coordinate the player may take: one cell from the grid's edge.
pub const MIN_COORD: u32 = 30;

/// Largest coordinate the player may take: one cell from the far edge.
pub const MAX_COORD: u32 = 570;

/// A pixel position on the drawing surface.
#[derive(Clone, Copy, Debug, PartialEq, Eq, Structural)]
pub struct Point {
    pub x: u32,
    pub y: u32,
}

/// A displacement; a movement direction is one of the four unit vectors.
#[derive(Clone, Copy, Debug, PartialEq, Eq, Structural)]
pub struct Vector {
    pub x: i32,
    pub y: i32,
}

/// An axis-aligned rectangle: its top-left corner and its size.
#[derive(Clone, Copy, Debug, PartialEq, Eq, Structural)]
pub struct Rect {
    pub x: u32,
    pub y: u32,
    pub width: u32,
    pub height: u32,
}

/// A coordinate brought into the playable range.
pub open spec fn clamp_coord(v: int) -> int {
    if v < MIN_COORD {
        MIN_COORD as int
    } else if v > MAX_COORD {
        MAX_COORD as int
    } else {
        v
    }
}

/// One coordinate's offset within its cell is within a tenth of a cell of a
/// cell boundary.
pub open spec fn axis_aligned(c: int) -> bool {
    10 * (c % CELL_SIZE as int) < CELL_SIZE || 10 * (c % CELL_SIZE as int) > 9 * CELL_SIZE
}

/// Both coordinates of `p` sit on (or next to) grid lines.
pub open spec fn grid_aligned(p: Point) -> bool {
    axis_aligned(p.x as int) && axis_aligned(p.y as int)
}

/// Squared Euclidean distance between two points.
pub open spec fn dist_sq(a: Point, b: Point) -> int {
    (a.x - b.x) * (a.x - b.x) + (a.y - b.y) * (a.y - b.y)
}

/// The distance between `a` and `b` is below half a cell.
pub open spec fn within_reach(a: Point, b: Point) -> bool {
    4 * dist_sq(a, b) < CELL_SIZE * CELL_SIZE
}

/// `p` lies inside `r`, its edges included.
pub open spec fn in_rect(p: Point, r: Rect) -> bool {
    r.x <= p.x <= r.x + r.width && r.y <= p.y <= r.y + r.height
}

/// Clamps a coordinate, computed as a wide integer, into the playable range.
pub fn clamp_to_bounds(v: i64) -> (r: u32)
    ensures
        r == clamp_coord(v as int),
{
    if v < MIN_COORD as i64 {
        MIN_COORD
    } else if v > MAX_COORD as i64 {
        MAX_COORD
    } else {
        v as u32
    }
}

/// Whether one coordinate is close enough to a grid line.
pub fn is_axis_aligned(c: u32) -> (r: bool)
    ensures
        r == axis_aligned(c as int),
{
    let offset = c % CELL_SIZE;
    10 * offset < CELL_SIZE || 10 * offset > 9 * CELL_SIZE
}

/// Distance along one axis.
fn abs_diff(a: u32, b: u32) -> (r: u32)
    ensures
        r == if a >= b { a - b } else { b - a },
{
    if a >= b {
        a - b
    } else {
        b - a
    }
}

/// Whether `a` and `b` are less than half a cell apart.
pub fn is_within_reach(a: Point, b: Point) -> (r: bool)
    ensures
        r == within_reach(a, b),
{
    let dx = abs_diff(a.x, b.x);
    let dy = abs_diff(a.y, b.y);
    assert(dist_sq(a, b) == dx * dx + dy * dy) by (nonlinear_arith)
        requires
            dx == if a.x >= b.x { a.x - b.x } else { b.x - a.x },
            dy == if a.y >= b.y { a.y - b.y } else { b.y - a.y },
    {}
    if dx >= CELL_SIZE || dy >= CELL_SIZE {
        assert(!within_reach(a, b)) by (nonlinear_arith)
            requires
                dx >= 30 || dy >= 30,
                dist_sq(a, b) == dx * dx + dy * dy,
        {}
        false
    } else {
        assert(dx * dx < 900 && dy * dy < 900) by (nonlinear_arith)
            requires
                dx < 30,
                dy < 30,
        {}
        4 * (dx * dx + dy * dy) < CELL_SIZE * CELL_SIZE
    }
}

/// Whether `point` lies inside `rect`, edges included.
pub fn is_point_in_rect(point: Point, rect: Rect) -> (r: bool)
    ensures
        r == in_rect(point, rect),
{
    point.x >= rect.x && point.x - rect.x <= rect.width && point.y >= rect.y && point.y
        - rect.y <= rect.height
}

} // verus!
