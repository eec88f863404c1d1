//! The player: where it stands, which way it faces, whether it walks, and
//! which walk frame it shows; the per-tick simulation step; and the two
//! rectangles that draw it.
use vstd::prelude::*;
use crate::geometry::{clamp_coord, clamp_len, clamp_position, clamp_size, in_coord_range, Position, Rect};
use crate::sprite::{direction_spritesheet_row, row, Direction};

verus! {

/// Pixels moved per tick while a direction key is held.
pub const PLAYER_MOVEMENT_SPEED: i32 = 5;

/// Number of walk frames in each spritesheet row.
pub const WALK_FRAMES: u32 = 3;

/// Width of one sprite frame in the spritesheet.
pub const FRAME_WIDTH: u32 = 26;

/// Height of one sprite frame in the spritesheet.
pub const FRAME_HEIGHT: u32 = 36;

/// The one sprite the keyboard steers.
#[derive(Debug, Clone, Copy, PartialEq, Eq, Structural)]
pub struct Player {
    /// Position in world space; the world origin is drawn at screen center.
    pub position: Position,
    /// The first frame of the spritesheet's first row; its size is the frame size.
    pub sprite: Rect,
    /// Pixels moved per tick: 0 when idle.
    pub speed: i32,
    /// The direction last walked in, kept while idle.
    pub direction: Direction,
    /// Walk frame shown, in `0..WALK_FRAMES`.
    pub current_frame: u32,
}

/// The position after one tick's move: `speed` pixels along the axis of
/// `direction`, saturated into range; the other coordinate is kept.
pub open spec fn moved(p: Player) -> Position {
    let x = p.position.x as int;
    let y = p.position.y as int;
    let s = p.speed as int;
    match p.direction {
        Direction::Left => Position { x: clamp_coord(x - s) as i32, y: p.position.y },
        Direction::Right => Position { x: clamp_coord(x + s) as i32, y: p.position.y },
        Direction::Up => Position { x: p.position.x, y: clamp_coord(y - s) as i32 },
        Direction::Down => Position { x: p.position.x, y: clamp_coord(y + s) as i32 },
    }
}

/// The player after one simulation step: moved, and on to the next walk frame
/// when walking.
pub open spec fn step(p: Player) -> Player {
    Player {
        position: moved(p),
        current_frame: if p.speed != 0 {
            ((p.current_frame + 1) % (WALK_FRAMES as int)) as u32
        } else {
            p.current_frame
        },
        ..p
    }
}

/// The player after `n` simulation steps.
pub open spec fn steps(p: Player, n: nat) -> Player
    decreases n,
{
    if n == 0 {
        p
    } else {
        steps(step(p), (n - 1) as nat)
    }
}

impl Player {
    /// Position in range, speed not negative, walk frame below `WALK_FRAMES`,
    /// frame rectangle valid.
    pub open spec fn is_valid(&self) -> bool {
        &&& self.position.is_valid()
        &&& self.sprite.is_valid()
        &&& self.speed >= 0
        &&& self.current_frame < WALK_FRAMES
    }

    /// Whether `is_valid` holds.
    pub fn check_valid(&self) -> (r: bool)
        ensures
            r == self.is_valid(),
    {
        self.position.check_valid() && self.sprite.check_valid() && self.speed >= 0
            && self.current_frame < WALK_FRAMES
    }

    /// The starting player: at the origin, idle, facing right, on frame 0,
    /// with frames of `FRAME_WIDTH` by `FRAME_HEIGHT` from the sheet's corner.
    pub open spec fn new_spec() -> Player {
        Player {
            position: Position { x: 0, y: 0 },
            sprite: Rect { x: 0, y: 0, width: FRAME_WIDTH, height: FRAME_HEIGHT },
            speed: 0,
            direction: Direction::Right,
            current_frame: 0,
        }
    }

    /// The player at startup: at the origin, idle, facing right, on frame 0,
    /// with frames of `FRAME_WIDTH` by `FRAME_HEIGHT` from the sheet's corner.
    pub fn new() -> (r: Player)
        ensures
            r == Player::new_spec(),
            r.is_valid(),
    {
        Player {
            position: Position::new(0, 0),
            sprite: Rect::new(0, 0, FRAME_WIDTH, FRAME_HEIGHT),
            speed: 0,
            direction: Direction::Right,
            current_frame: 0,
        }
    }
}

/// One simulation step: moves the player `speed` pixels along the axis of
/// its direction and, when it walks, advances its walk frame modulo
/// `WALK_FRAMES`. An idle player is left as it is.
pub fn update_player(player: &mut Player)
    requires
        old(player).is_valid(),
    ensures
        *final(player) == step(*old(player)),
        final(player).is_valid(),
        old(player).speed == 0 ==> *final(player) == *old(player),
{
    let speed = player.speed;
    match player.direction {
        Direction::Left => {
            player.position = player.position.offset(-speed, 0);
        },
        Direction::Right => {
            player.position = player.position.offset(speed, 0);
        },
        Direction::Up => {
            player.position = player.position.offset(0, -speed);
        },
        Direction::Down => {
            player.position = player.position.offset(0, speed);
        },
    }
    if speed != 0 {
        player.current_frame = (player.current_frame + 1) % WALK_FRAMES;
    }
}

/// The spritesheet rectangle that shows `player`: the frame-sized rectangle
/// `current_frame` frames right of the sheet rectangle's corner and
/// `row(direction)` frames down, its corner saturated into range.
pub fn source_rect(player: &Player) -> (r: Rect)
    requires
        player.current_frame < WALK_FRAMES,
    ensures
        r.x == clamp_coord(player.sprite.x + player.sprite.width * player.current_frame),
        r.y == clamp_coord(player.sprite.y + player.sprite.height * row(player.direction)),
        r.width == clamp_len(player.sprite.width as int),
        r.height == clamp_len(player.sprite.height as int),
        in_coord_range(player.sprite.x + player.sprite.width * player.current_frame) ==> r.x
            == player.sprite.x + player.sprite.width * player.current_frame,
        in_coord_range(player.sprite.y + player.sprite.height * row(player.direction)) ==> r.y
            == player.sprite.y + player.sprite.height * row(player.direction),
        player.sprite.is_valid() ==> r.width == player.sprite.width && r.height
            == player.sprite.height,
{
    let frame_width = player.sprite.width;
    let frame_height = player.sprite.height;
    let column = player.current_frame;
    let line = direction_spritesheet_row(player.direction);
    assert(0 <= frame_width as int * column as int <= 3 * 0xffff_ffff) by (nonlinear_arith)
        requires
            column < 3,
            frame_width <= 0xffff_ffff,
    ;
    assert(0 <= frame_height as int * line as int <= 3 * 0xffff_ffff) by (nonlinear_arith)
        requires
            0 <= line < 4,
            frame_height <= 0xffff_ffff,
    ;
    let x = player.sprite.x as i64 + frame_width as i64 * column as i64;
    let y = player.sprite.y as i64 + frame_height as i64 * line as i64;
    Rect {
        x: clamp_position(x),
        y: clamp_position(y),
        width: clamp_size(frame_width),
        height: clamp_size(frame_height),
    }
}

/// Where the player's center is drawn on a screen of `screen_width` by
/// `screen_height`: its position shifted by half the screen size, so that
/// the world origin sits at the screen's center.
pub open spec fn screen_center(player: Player, screen_width: u32, screen_height: u32) -> Position {
    Position {
        x: clamp_coord(player.position.x + clamp_coord(screen_width as int / 2)) as i32,
        y: clamp_coord(player.position.y + clamp_coord(screen_height as int / 2)) as i32,
    }
}

/// The screen rectangle the player is drawn into: frame-sized and centered
/// on `screen_center`.
pub fn screen_rect(player: &Player, screen_width: u32, screen_height: u32) -> (r: Rect)
    ensures
        r.width == clamp_len(player.sprite.width as int),
        r.height == clamp_len(player.sprite.height as int),
        r.x == clamp_coord(
            screen_center(*player, screen_width, screen_height).x - r.width as int / 2,
        ),
        r.y == clamp_coord(
            screen_center(*player, screen_width, screen_height).y - r.height as int / 2,
        ),
        r.is_valid(),
{
    let half = Position::new((screen_width / 2) as i32, (screen_height / 2) as i32);
    let center = player.position.offset(half.x, half.y);
    Rect::from_center(center, player.sprite.width, player.sprite.height)
}

/// An idle player stays where it is, on the same walk frame, however many
/// simulation steps run.
pub proof fn lemma_idle_steps_keep_player(p: Player, n: nat)
    requires
        p.is_valid(),
        p.speed == 0,
    ensures
        steps(p, n) == p,
    decreases n,
{
    if n > 0 {
        lemma_idle_steps_keep_player(step(p), (n - 1) as nat);
    }
}

/// Each simulation step keeps the player valid, and walks, faces and is
/// sized as before.
proof fn lemma_step_keeps(p: Player)
    requires
        p.is_valid(),
    ensures
        step(p).is_valid(),
        step(p).speed == p.speed,
        step(p).direction == p.direction,
        step(p).sprite == p.sprite,
{
}

/// A walking player that starts on frame 0 shows frame `k mod WALK_FRAMES`
/// after `k` simulation steps; so after `WALK_FRAMES` steps it is back on 0.
pub proof fn lemma_walk_frame_cycles(p: Player, k: nat)
    requires
        p.is_valid(),
        p.speed != 0,
        p.current_frame == 0,
    ensures
        steps(p, k).current_frame == k % (WALK_FRAMES as nat),
        steps(p, WALK_FRAMES as nat).current_frame == 0,
{
    lemma_walk_frame_advances(p, k);
    lemma_walk_frame_advances(p, WALK_FRAMES as nat);
}

/// After `k` steps a walking player's frame is its start frame plus `k`,
/// modulo `WALK_FRAMES`.
proof fn lemma_walk_frame_advances(p: Player, k: nat)
    requires
        p.is_valid(),
        p.speed != 0,
    ensures
        steps(p, k).current_frame == (p.current_frame + k) % (WALK_FRAMES as int),
    decreases k,
{
    if k > 0 {
        lemma_step_keeps(p);
        lemma_walk_frame_advances(step(p), (k - 1) as nat);
        assert(((p.current_frame + 1) % 3 + (k - 1)) % 3 == (p.current_frame + k) % 3)
            by (nonlinear_arith);
    }
}

/// The coordinate a step moves to on the axis the player faces, before it
/// is saturated into range.
pub open spec fn unclamped_target(p: Player) -> int {
    match p.direction {
        Direction::Left => p.position.x - p.speed,
        Direction::Right => p.position.x + p.speed,
        Direction::Up => p.position.y - p.speed,
        Direction::Down => p.position.y + p.speed,
    }
}

/// One step of a walking player changes exactly one coordinate, the one on
/// the axis it faces, unless the move would leave the coordinate range.
pub proof fn lemma_step_moves_one_axis(p: Player)
    requires
        p.is_valid(),
        p.speed != 0,
        in_coord_range(unclamped_target(p)),
    ensures
        (step(p).position.x != p.position.x) != (step(p).position.y != p.position.y),
        (p.direction == Direction::Left || p.direction == Direction::Right) ==> step(
            p,
        ).position.y == p.position.y,
        (p.direction == Direction::Up || p.direction == Direction::Down) ==> step(p).position.x
            == p.position.x,
{
}

} // verus!
