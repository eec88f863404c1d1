//! Facing directions and the spritesheet rows that hold their walk frames.
use vstd::prelude::*;

verus! {

/// The four directions the player can face and walk in.
#[derive(Debug, Clone, Copy, PartialEq, Eq, Structural)]
pub enum Direction {
    Up,
    Down,
    Left,
    Right,
}

/// The spritesheet row that holds the walk frames for a direction.
pub open spec fn row(direction: Direction) -> int {
    match direction {
        Direction::Down => 0,
        Direction::Left => 1,
        Direction::Right => 2,
        Direction::Up => 3,
    }
}

/// Row of the spritesheet for `direction`: Down 0, Left 1, Right 2, Up 3.
pub fn direction_spritesheet_row(direction: Direction) -> (r: i32)
    ensures
        r == row(direction),
        0 <= r < 4,
{
    match direction {
        Direction::Up => 3,
        Direction::Down => 0,
        Direction::Left => 1,
        Direction::Right => 2,
    }
}

} // verus!
