//! Component types for the game's entities: grid positions, headings,
//! wall extents, and the zero-sized marker components.

use vstd::prelude::*;

verus! {

/// Side length of one grid cell; every movement step covers one cell.
pub const CELL: i32 = 10;

/// Largest screen dimension the game accepts, in pixels.
pub const MAX_DIM: i32 = 1_000_000_000;

/// Marker component: the entity is the player.
#[derive(Clone, Copy, PartialEq, Eq, Structural, Debug)]
pub struct Player;

/// Marker component: the entity is a consumable dot.
#[derive(Clone, Copy, PartialEq, Eq, Structural, Debug)]
pub struct Dot;

/// Marker component: reserved fruit tag (never attached by the game).
#[derive(Clone, Copy, PartialEq, Eq, Structural, Debug)]
pub struct Fruit;

/// A grid-aligned point on the screen, in pixels.
#[derive(Clone, Copy, PartialEq, Eq, Structural, Debug)]
pub struct Point {
    pub x: i32,
    pub y: i32,
}

/// An axis-aligned rectangle: top-left corner, then width and height.
#[derive(Clone, Copy, PartialEq, Eq, Structural, Debug)]
pub struct Rect {
    pub x: i32,
    pub y: i32,
    pub w: i32,
    pub h: i32,
}

/// Component describing a wall segment's rectangular extent.
#[derive(Clone, Copy, PartialEq, Eq, Structural, Debug)]
pub struct Wall {
    pub size: Rect,
}

impl Rect {
    /// Whether the point `(px, py)` lies inside the rectangle, edges included.
    pub open spec fn contains_spec(self, px: int, py: int) -> bool {
        &&& self.x <= px <= self.x + self.w
        &&& self.y <= py <= self.y + self.h
    }

    /// Executable form of [`Rect::contains_spec`].
    pub fn contains(&self, p: Point) -> (r: bool)
        requires
            -MAX_DIM <= self.x <= MAX_DIM,
            -MAX_DIM <= self.y <= MAX_DIM,
            0 <= self.w <= MAX_DIM,
            0 <= self.h <= MAX_DIM,
        ensures
            r == self.contains_spec(p.x as int, p.y as int),
    {
        self.x <= p.x && p.x <= self.x + self.w && self.y <= p.y && p.y <= self.y + self.h
    }
}

/// Whether a wall's extent is bounded so that point-in-rectangle arithmetic
/// on it cannot overflow.
pub open spec fn wall_ok(w: Wall) -> bool {
    &&& -MAX_DIM <= w.size.x <= MAX_DIM
    &&& -MAX_DIM <= w.size.y <= MAX_DIM
    &&& 0 <= w.size.w <= MAX_DIM
    &&& 0 <= w.size.h <= MAX_DIM
}

/// One of the four headings the player can travel in.
#[derive(Clone, Copy, PartialEq, Eq, Structural, Debug)]
pub enum Direction {
    North,
    East,
    South,
    West,
}

impl Direction {
    /// The heading that points the opposite way.
    pub open spec fn opposite(self) -> Direction {
        match self {
            Direction::North => Direction::South,
            Direction::East => Direction::West,
            Direction::South => Direction::North,
            Direction::West => Direction::East,
        }
    }

    /// Executable form of [`Direction::opposite`].
    pub fn oppisite(&self) -> (r: Self)
        ensures
            r == self.opposite(),
    {
        match *self {
            Direction::North => Direction::South,
            Direction::East => Direction::West,
            Direction::South => Direction::North,
            Direction::West => Direction::East,
        }
    }

    /// Translates the point by `delta` along this heading, without wrapping.
    pub fn update_point(&self, pnt: &mut Point, delta: i32)
        requires
            -MAX_DIM <= old(pnt).x <= MAX_DIM,
            -MAX_DIM <= old(pnt).y <= MAX_DIM,
            0 <= delta <= MAX_DIM,
        ensures
            final(pnt).x == moved_x(*old(pnt), *self, delta as int),
            final(pnt).y == moved_y(*old(pnt), *self, delta as int),
    {
        match *self {
            Direction::North => pnt.y = pnt.y - delta,
            Direction::East => pnt.x = pnt.x + delta,
            Direction::South => pnt.y = pnt.y + delta,
            Direction::West => pnt.x = pnt.x - delta,
        }
    }

    /// The point `delta` away from `start` along this heading, without
    /// wrapping.
    pub fn move_by(&self, start: &Point, delta: i32) -> (r: Point)
        requires
            -MAX_DIM <= start.x <= MAX_DIM,
            -MAX_DIM <= start.y <= MAX_DIM,
            0 <= delta <= MAX_DIM,
        ensures
            r.x == moved_x(*start, *self, delta as int),
            r.y == moved_y(*start, *self, delta as int),
    {
        match *self {
            Direction::North => Point { x: start.x, y: start.y - delta },
            Direction::East => Point { x: start.x + delta, y: start.y },
            Direction::South => Point { x: start.x, y: start.y + delta },
            Direction::West => Point { x: start.x - delta, y: start.y },
        }
    }
}

/// The x coordinate after a step of length `delta` along `d`, unwrapped.
pub open spec fn moved_x(p: Point, d: Direction, delta: int) -> int {
    match d {
        Direction::East => p.x + delta,
        Direction::West => p.x - delta,
        _ => p.x as int,
    }
}

/// The y coordinate after a step of length `delta` along `d`, unwrapped
/// (North decreases y, South increases it).
pub open spec fn moved_y(p: Point, d: Direction, delta: int) -> int {
    match d {
        Direction::North => p.y - delta,
        Direction::South => p.y + delta,
        _ => p.y as int,
    }
}

/// Wraps a coordinate to the screen: falling below zero lands one cell in
/// from the far edge, and reaching the dimension lands back on zero.
pub open spec fn wrap_coord(c: int, dim: int) -> int {
    if c < 0 {
        dim - CELL
    } else if c >= dim {
        0
    } else {
        c
    }
}

/// The position one cell along `d` from `p`, wrapped to a screen of
/// `dim_w` by `dim_h` pixels.
pub open spec fn advanced(p: Point, d: Direction, dim_w: int, dim_h: int) -> Point {
    Point {
        x: wrap_coord(moved_x(p, d, CELL as int), dim_w) as i32,
        y: wrap_coord(moved_y(p, d, CELL as int), dim_h) as i32,
    }
}

/// Whether `p` is grid-aligned and inside a screen of `dim_w` by `dim_h`.
pub open spec fn on_screen(p: Point, dim_w: int, dim_h: int) -> bool {
    &&& 0 <= p.x < dim_w
    &&& 0 <= p.y < dim_h
    &&& p.x as int % (CELL as int) == 0
    &&& p.y as int % (CELL as int) == 0
}

/// Whether a screen dimension is acceptable: grid-aligned, large enough to
/// hold the starting position and the food margin, and small enough for the
/// coordinate arithmetic never to overflow.
pub open spec fn dim_ok(dim: int) -> bool {
    &&& dim % (CELL as int) == 0
    &&& 6 * CELL <= dim <= MAX_DIM
}

/// Advancing one cell along a heading and then one cell along the opposite
/// heading returns a grid-aligned on-screen point to where it started, the
/// screen wrap included.
pub proof fn lemma_advance_then_back(p: Point, d: Direction, dim_w: int, dim_h: int)
    requires
        dim_ok(dim_w),
        dim_ok(dim_h),
        on_screen(p, dim_w, dim_h),
    ensures
        advanced(advanced(p, d, dim_w, dim_h), d.opposite(), dim_w, dim_h) == p,
{
}

/// The screen wrap at the edges: stepping West from x = 0 lands on
/// x = dim_w − CELL, and stepping East from x = dim_w − CELL lands on x = 0.
pub proof fn lemma_wrap_at_edges(y: i32, dim_w: i32, dim_h: i32)
    requires
        dim_ok(dim_w as int),
        dim_ok(dim_h as int),
        0 <= y < dim_h,
    ensures
        advanced(Point { x: 0, y }, Direction::West, dim_w as int, dim_h as int).x == dim_w - CELL,
        advanced(
            Point { x: (dim_w - CELL) as i32, y },
            Direction::East,
            dim_w as int,
            dim_h as int,
        ).x == 0,
{
}

/// Taking the opposite heading twice returns the original heading.
pub proof fn lemma_opposite_involution(d: Direction)
    ensures
        d.opposite().opposite() == d,
{
}

} // verus!
