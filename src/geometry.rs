//! Integer positions and rectangles. Coordinates saturate at a fixed range and
//! sizes are kept non-empty, so that a rectangle's far edge always fits in
//! an `i32`.
use vstd::prelude::*;

verus! {

/// The largest coordinate and the largest size a rectangle may have.
pub const MAX_COORD: i32 = 1073741823;

/// The smallest coordinate.
pub const MIN_COORD: i32 = -1073741824;

/// The largest width or height of a rectangle.
pub const MAX_SIZE: u32 = 1073741823;

/// `v` brought into the coordinate range.
pub open spec fn clamp_coord(v: int) -> int {
    if v > MAX_COORD as int {
        MAX_COORD as int
    } else if v < MIN_COORD as int {
        MIN_COORD as int
    } else {
        v
    }
}

/// A size made non-empty and no larger than `MAX_SIZE`.
pub open spec fn clamp_len(v: int) -> int {
    if v == 0 {
        1
    } else if v > MAX_SIZE as int {
        MAX_SIZE as int
    } else {
        v
    }
}

pub open spec fn in_coord_range(v: int) -> bool {
    MIN_COORD as int <= v <= MAX_COORD as int
}

/// Saturates `v` into the coordinate range.
pub fn clamp_position(v: i64) -> (r: i32)
    ensures
        r == clamp_coord(v as int),
{
    if v > MAX_COORD as i64 {
        MAX_COORD
    } else if v < MIN_COORD as i64 {
        MIN_COORD
    } else {
        v as i32
    }
}

/// Makes a size non-empty and at most `MAX_SIZE`.
pub fn clamp_size(v: u32) -> (r: u32)
    ensures
        r == clamp_len(v as int),
{
    if v == 0 {
        1
    } else if v > MAX_SIZE {
        MAX_SIZE
    } else {
        v
    }
}

/// A point in world or screen space.
#[derive(Debug, Clone, Copy, PartialEq, Eq, Structural)]
pub struct Position {
    pub x: i32,
    pub y: i32,
}

impl Position {
    /// Both coordinates lie in the coordinate range.
    pub open spec fn is_valid(&self) -> bool {
        in_coord_range(self.x as int) && in_coord_range(self.y as int)
    }

    /// Whether `is_valid` holds.
    pub fn check_valid(&self) -> (r: bool)
        ensures
            r == self.is_valid(),
    {
        MIN_COORD <= self.x && self.x <= MAX_COORD && MIN_COORD <= self.y && self.y <= MAX_COORD
    }

    /// The point `(x, y)`, each coordinate saturated into range.
    pub fn new(x: i32, y: i32) -> (r: Position)
        ensures
            r.x == clamp_coord(x as int),
            r.y == clamp_coord(y as int),
            r.is_valid(),
    {
        Position { x: clamp_position(x as i64), y: clamp_position(y as i64) }
    }

    /// This point moved by `(dx, dy)`, each coordinate saturated into range.
    pub fn offset(self, dx: i32, dy: i32) -> (r: Position)
        ensures
            r.x == clamp_coord(self.x + dx),
            r.y == clamp_coord(self.y + dy),
            r.is_valid(),
    {
        Position {
            x: clamp_position(self.x as i64 + dx as i64),
            y: clamp_position(self.y as i64 + dy as i64),
        }
    }
}

/// An axis-aligned rectangle: its top-left corner and its size.
#[derive(Debug, Clone, Copy, PartialEq, Eq, Structural)]
pub struct Rect {
    pub x: i32,
    pub y: i32,
    pub width: u32,
    pub height: u32,
}

impl Rect {
    /// Corner in range, size non-empty and at most `MAX_SIZE`.
    pub open spec fn is_valid(&self) -> bool {
        &&& in_coord_range(self.x as int)
        &&& in_coord_range(self.y as int)
        &&& 1 <= self.width <= MAX_SIZE
        &&& 1 <= self.height <= MAX_SIZE
    }

    /// Whether `is_valid` holds.
    pub fn check_valid(&self) -> (r: bool)
        ensures
            r == self.is_valid(),
    {
        Position { x: self.x, y: self.y }.check_valid() && 1 <= self.width && self.width
            <= MAX_SIZE && 1 <= self.height && self.height <= MAX_SIZE
    }

    /// The rectangle with corner `(x, y)` and size `width` by `height`,
    /// the corner saturated into range and the size made valid.
    pub fn new(x: i32, y: i32, width: u32, height: u32) -> (r: Rect)
        ensures
            r.x == clamp_coord(x as int),
            r.y == clamp_coord(y as int),
            r.width == clamp_len(width as int),
            r.height == clamp_len(height as int),
            r.is_valid(),
    {
        Rect {
            x: clamp_position(x as i64),
            y: clamp_position(y as i64),
            width: clamp_size(width),
            height: clamp_size(height),
        }
    }

    /// The rectangle of the given size whose center is `center`: the corner
    /// lies half the (made valid) size up and left of the saturated center.
    pub fn from_center(center: Position, width: u32, height: u32) -> (r: Rect)
        ensures
            r.width == clamp_len(width as int),
            r.height == clamp_len(height as int),
            r.x == clamp_coord(clamp_coord(center.x as int) - r.width as int / 2),
            r.y == clamp_coord(clamp_coord(center.y as int) - r.height as int / 2),
            r.is_valid(),
    {
        let w = clamp_size(width);
        let h = clamp_size(height);
        let cx = clamp_position(center.x as i64);
        let cy = clamp_position(center.y as i64);
        Rect {
            x: clamp_position(cx as i64 - (w / 2) as i64),
            y: clamp_position(cy as i64 - (h / 2) as i64),
            width: w,
            height: h,
        }
    }
}

} // verus!
