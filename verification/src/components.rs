//! Plain component data attached to entities: where an entity is, how fast
//! it moves, how large it is, how it is drawn, and the box it collides with.

use vstd::prelude::*;

verus! {

/// Top-left corner of an entity, in units.
#[derive(Clone, Copy, Debug, PartialEq, Eq, Structural)]
pub struct Position {
    pub x: i32,
    pub y: i32,
}

/// Signed rate of change of a position, in units per second.
#[derive(Clone, Copy, Debug, PartialEq, Eq, Structural)]
pub struct Velocity {
    pub x: i32,
    pub y: i32,
}

/// Extents of an entity. Being unsigned, they are never negative.
#[derive(Clone, Copy, Debug, PartialEq, Eq, Structural)]
pub struct Size {
    pub width: u32,
    pub height: u32,
}

/// A colour as four channels, each from 0 (none) to 255 (full).
#[derive(Clone, Copy, Debug, PartialEq, Eq, Structural)]
pub struct Color {
    pub r: u8,
    pub g: u8,
    pub b: u8,
    pub a: u8,
}

/// Marks an entity as drawn, as a filled rectangle of this colour.
#[derive(Clone, Copy, Debug, PartialEq, Eq, Structural)]
pub struct Renderable {
    pub color: Color,
}

/// Axis-aligned collision box. The fields are wide enough to hold the sum of
/// any position and any size, so deriving a box never overflows.
#[derive(Clone, Copy, Debug, PartialEq, Eq, Structural)]
pub struct Bounds {
    pub min_x: i64,
    pub min_y: i64,
    pub max_x: i64,
    pub max_y: i64,
}

/// The squared straight-line distance between two points.
pub open spec fn distance_squared(a: Position, b: Position) -> int {
    (a.x - b.x) * (a.x - b.x) + (a.y - b.y) * (a.y - b.y)
}

/// `r` is the square root of `n`, rounded down.
pub open spec fn is_floor_sqrt(r: int, n: int) -> bool {
    0 <= r && r * r <= n && n < (r + 1) * (r + 1)
}

/// The box that an entity at `pos` with extents `size` occupies.
pub open spec fn bounds_of(pos: Position, size: Size) -> Bounds {
    Bounds {
        min_x: pos.x as i64,
        min_y: pos.y as i64,
        max_x: (pos.x + size.width) as i64,
        max_y: (pos.y + size.height) as i64,
    }
}

/// Two boxes overlap in an area, not merely along an edge or at a corner.
pub open spec fn boxes_intersect(a: Bounds, b: Bounds) -> bool {
    a.min_x < b.max_x && a.max_x > b.min_x && a.min_y < b.max_y && a.max_y > b.min_y
}

proof fn lemma_square_bound(a: int, limit: int)
    requires
        0 <= a <= limit,
    ensures
        0 <= a * a <= limit * limit,
{
    assert(0 <= a * a <= limit * limit) by (nonlinear_arith)
        requires
            0 <= a <= limit,
    ;
}

/// Square root of `n` rounded down, found by bisection.
fn floor_sqrt(n: u128) -> (r: u64)
    requires
        n < 0x4_0000_0000_0000_0000,
    ensures
        is_floor_sqrt(r as int, n as int),
{
    let mut lo: u128 = 0;
    let mut hi: u128 = 0x2_0000_0000;
    assert(0x2_0000_0000int * 0x2_0000_0000int == 0x4_0000_0000_0000_0000int);
    while hi - lo > 1
        invariant
            lo < hi <= 0x2_0000_0000,
            lo * lo <= n,
            n < hi * hi,
        decreases hi - lo,
    {
        let mid: u128 = lo + (hi - lo) / 2;
        proof {
            lemma_square_bound(mid as int, 0x2_0000_0000);
        }
        if mid * mid <= n {
            lo = mid;
        } else {
            hi = mid;
        }
    }
    lo as u64
}

impl Position {
    pub fn new(x: i32, y: i32) -> (p: Self)
        ensures
            p == (Position { x, y }),
    {
        Position { x, y }
    }

    /// Straight-line distance to `other`, rounded down to a whole unit.
    pub fn distance_to(&self, other: Position) -> (d: u64)
        ensures
            is_floor_sqrt(d as int, distance_squared(*self, other)),
    {
        let dx: i128 = self.x as i128 - other.x as i128;
        let dy: i128 = self.y as i128 - other.y as i128;
        let ax: u128 = if dx < 0 { (-dx) as u128 } else { dx as u128 };
        let ay: u128 = if dy < 0 { (-dy) as u128 } else { dy as u128 };
        proof {
            lemma_square_bound(ax as int, 0xffff_ffff);
            lemma_square_bound(ay as int, 0xffff_ffff);
            assert(ax * ax == dx * dx) by (nonlinear_arith)
                requires
                    ax == dx || ax == -dx,
            ;
            assert(ay * ay == dy * dy) by (nonlinear_arith)
                requires
                    ay == dy || ay == -dy,
            ;
        }
        floor_sqrt(ax * ax + ay * ay)
    }
}

impl Velocity {
    pub fn new(x: i32, y: i32) -> (v: Self)
        ensures
            v == (Velocity { x, y }),
    {
        Velocity { x, y }
    }
}

impl Size {
    pub fn new(width: u32, height: u32) -> (s: Self)
        ensures
            s == (Size { width, height }),
    {
        Size { width, height }
    }

    /// A size with equal width and height.
    pub fn square(size: u32) -> (s: Self)
        ensures
            s == (Size { width: size, height: size }),
    {
        Size { width: size, height: size }
    }
}

impl Color {
    pub fn rgba(r: u8, g: u8, b: u8, a: u8) -> (c: Self)
        ensures
            c == (Color { r, g, b, a }),
    {
        Color { r, g, b, a }
    }
}

impl Renderable {
    pub fn new(color: Color) -> (r: Self)
        ensures
            r.color == color,
    {
        Renderable { color }
    }

    pub fn white() -> (r: Self)
        ensures
            r.color == (Color { r: 255, g: 255, b: 255, a: 255 }),
    {
        Renderable { color: Color { r: 255, g: 255, b: 255, a: 255 } }
    }

    pub fn red() -> (r: Self)
        ensures
            r.color == (Color { r: 255, g: 0, b: 0, a: 255 }),
    {
        Renderable { color: Color { r: 255, g: 0, b: 0, a: 255 } }
    }

    pub fn green() -> (r: Self)
        ensures
            r.color == (Color { r: 0, g: 255, b: 0, a: 255 }),
    {
        Renderable { color: Color { r: 0, g: 255, b: 0, a: 255 } }
    }

    pub fn blue() -> (r: Self)
        ensures
            r.color == (Color { r: 0, g: 0, b: 255, a: 255 }),
    {
        Renderable { color: Color { r: 0, g: 0, b: 255, a: 255 } }
    }

    pub fn black() -> (r: Self)
        ensures
            r.color == (Color { r: 0, g: 0, b: 0, a: 255 }),
    {
        Renderable { color: Color { r: 0, g: 0, b: 0, a: 255 } }
    }
}

impl Bounds {
    /// The box with its minimum corner at `pos` and its maximum corner at
    /// `pos` plus `size`, componentwise.
    pub fn from_position_and_size(pos: Position, size: Size) -> (b: Self)
        ensures
            b == bounds_of(pos, size),
            b.min_x == pos.x,
            b.min_y == pos.y,
            b.max_x == pos.x + size.width,
            b.max_y == pos.y + size.height,
    {
        Bounds {
            min_x: pos.x as i64,
            min_y: pos.y as i64,
            max_x: pos.x as i64 + size.width as i64,
            max_y: pos.y as i64 + size.height as i64,
        }
    }

    /// Strict overlap test: boxes that only touch do not intersect.
    pub fn intersects(&self, other: &Bounds) -> (hit: bool)
        ensures
            hit == boxes_intersect(*self, *other),
    {
        self.min_x < other.max_x && self.max_x > other.min_x && self.min_y < other.max_y
            && self.max_y > other.min_y
    }
}

/// Boxes that share an edge, with one ending exactly where the other begins
/// on either axis, never intersect, however much they overlap on the other
/// axis.
pub proof fn lemma_touching_boxes_do_not_intersect(a: Bounds, b: Bounds)
    requires
        a.max_x == b.min_x || b.max_x == a.min_x || a.max_y == b.min_y || b.max_y == a.min_y,
    ensures
        !boxes_intersect(a, b),
        !boxes_intersect(b, a),
{
}

/// Intersection does not depend on which box is asked.
pub proof fn lemma_intersection_is_symmetric(a: Bounds, b: Bounds)
    ensures
        boxes_intersect(a, b) == boxes_intersect(b, a),
{
}

} // verus!
