//! Input events, the state a tick works on, and the tick's decisions: how
//! events steer the player, the background's color cycle, and the
//! simulation step.
use vstd::prelude::*;
use crate::player::{step, update_player, Player, PLAYER_MOVEMENT_SPEED};
use crate::sprite::Direction;

verus! {

/// Length of the background's color cycle, in ticks.
pub const COLOR_CYCLE: u8 = 255;

/// The keys the game tells apart.
#[derive(Debug, Clone, Copy, PartialEq, Eq, Structural)]
pub enum Key {
    Escape,
    Left,
    Right,
    Up,
    Down,
    Other,
}

/// One event from the window's event queue.
#[derive(Debug, Clone, Copy, PartialEq, Eq, Structural)]
pub enum InputEvent {
    /// The window asks to close.
    Quit,
    /// A key went down; `repeat` when it is the keyboard's auto-repeat.
    KeyDown { key: Key, repeat: bool },
    /// A key went up; `repeat` when it is the keyboard's auto-repeat.
    KeyUp { key: Key, repeat: bool },
    /// Anything else.
    Other,
}

/// The direction an arrow key steers toward; none for other keys.
pub open spec fn key_direction(key: Key) -> Option<Direction> {
    match key {
        Key::Left => Some(Direction::Left),
        Key::Right => Some(Direction::Right),
        Key::Up => Some(Direction::Up),
        Key::Down => Some(Direction::Down),
        _ => None,
    }
}

/// Everything the loop carries from one tick to the next.
#[derive(Debug, Clone, Copy, PartialEq, Eq, Structural)]
pub struct Game {
    pub player: Player,
    /// Whether the loop runs another tick.
    pub running: bool,
    /// Position in the background's color cycle, below `COLOR_CYCLE`.
    pub color_step: u8,
}

/// The game after one event. A quit, or Escape going down (repeated or not),
/// stops the loop. An arrow key going down, not repeated, sets the player
/// walking at `PLAYER_MOVEMENT_SPEED` in its direction. An arrow key going
/// up, not repeated, stops the player, whichever way it faces. Everything
/// else leaves the game as it is.
pub open spec fn apply_event(g: Game, e: InputEvent) -> Game {
    match e {
        InputEvent::Quit => Game { running: false, ..g },
        InputEvent::KeyDown { key, repeat } => {
            if key == Key::Escape {
                Game { running: false, ..g }
            } else if !repeat && key_direction(key) is Some {
                Game {
                    player: Player {
                        speed: PLAYER_MOVEMENT_SPEED,
                        direction: key_direction(key)->0,
                        ..g.player
                    },
                    ..g
                }
            } else {
                g
            }
        },
        InputEvent::KeyUp { key, repeat } => {
            if !repeat && key_direction(key) is Some {
                Game { player: Player { speed: 0, ..g.player }, ..g }
            } else {
                g
            }
        },
        InputEvent::Other => g,
    }
}

/// The game after the events of `events`, first to last.
pub open spec fn apply_events(g: Game, events: Seq<InputEvent>) -> Game
    decreases events.len(),
{
    if events.len() == 0 {
        g
    } else {
        apply_event(apply_events(g, events.drop_last()), events.last())
    }
}

/// The next position in the background's color cycle.
pub open spec fn next_color(i: int) -> int {
    (i + 1) % (COLOR_CYCLE as int)
}

/// The game after one tick on the events queued since the last: the events
/// applied in order, the color cycle advanced, the simulation stepped.
pub open spec fn tick_result(g: Game, events: Seq<InputEvent>) -> Game {
    let h = apply_events(g, events);
    Game { player: step(h.player), color_step: next_color(h.color_step as int) as u8, ..h }
}

impl Game {
    /// The player valid and the color cycle in range.
    pub open spec fn is_valid(&self) -> bool {
        self.player.is_valid() && self.color_step < COLOR_CYCLE
    }

    /// Whether `is_valid` holds.
    pub fn check_valid(&self) -> (r: bool)
        ensures
            r == self.is_valid(),
    {
        self.player.check_valid() && self.color_step < COLOR_CYCLE
    }

    /// The game at startup: the starting player, running, at the start of
    /// the color cycle.
    pub fn new() -> (r: Game)
        ensures
            r.player == Player::new_spec(),
            r.running,
            r.color_step == 0,
            r.is_valid(),
    {
        Game { player: Player::new(), running: true, color_step: 0 }
    }

    /// Applies one event, as `apply_event` says.
    pub fn handle_event(&mut self, event: InputEvent)
        ensures
            *final(self) == apply_event(*old(self), event),
    {
        match event {
            InputEvent::Quit => {
                self.running = false;
            },
            InputEvent::KeyDown { key, repeat } => {
                if key == Key::Escape {
                    self.running = false;
                } else if !repeat {
                    match key {
                        Key::Left => self.walk(Direction::Left),
                        Key::Right => self.walk(Direction::Right),
                        Key::Up => self.walk(Direction::Up),
                        Key::Down => self.walk(Direction::Down),
                        _ => {},
                    }
                }
            },
            InputEvent::KeyUp { key, repeat } => {
                if !repeat {
                    match key {
                        Key::Left | Key::Right | Key::Up | Key::Down => {
                            self.player.speed = 0;
                        },
                        _ => {},
                    }
                }
            },
            InputEvent::Other => {},
        }
    }

    /// Sets the player walking toward `direction`.
    fn walk(&mut self, direction: Direction)
        ensures
            *final(self) == (Game {
                player: Player { speed: PLAYER_MOVEMENT_SPEED, direction, ..old(self).player },
                ..*old(self)
            }),
    {
        self.player.speed = PLAYER_MOVEMENT_SPEED;
        self.player.direction = direction;
    }

    /// Applies the events of `events`, first to last.
    pub fn handle_events(&mut self, events: &Vec<InputEvent>)
        ensures
            *final(self) == apply_events(*old(self), events@),
    {
        let ghost start = *self;
        let mut i: usize = 0;
        while i < events.len()
            invariant
                i <= events.len(),
                *self == apply_events(start, events@.take(i as int)),
            decreases events.len() - i,
        {
            assert(events@.take(i + 1).drop_last() =~= events@.take(i as int));
            self.handle_event(events[i]);
            i += 1;
        }
        assert(events@.take(i as int) =~= events@);
    }

    /// One tick: applies the queued events, advances the color cycle, and
    /// runs the simulation step.
    pub fn tick(&mut self, events: &Vec<InputEvent>)
        requires
            old(self).is_valid(),
        ensures
            *final(self) == tick_result(*old(self), events@),
            final(self).is_valid(),
    {
        self.handle_events(events);
        proof {
            lemma_events_keep_valid(*old(self), events@);
        }
        self.color_step = next_color_step(self.color_step);
        update_player(&mut self.player);
    }
}

/// Events keep a game valid.
proof fn lemma_events_keep_valid(g: Game, events: Seq<InputEvent>)
    requires
        g.is_valid(),
    ensures
        apply_events(g, events).is_valid(),
    decreases events.len(),
{
    if events.len() > 0 {
        lemma_events_keep_valid(g, events.drop_last());
    }
}

/// The position that follows `i` in the background's color cycle.
pub fn next_color_step(i: u8) -> (r: u8)
    ensures
        r == next_color(i as int),
        r < COLOR_CYCLE,
{
    ((i as u16 + 1) % (COLOR_CYCLE as u16)) as u8
}

/// The background color for a red level: that much red, a fixed 64 of
/// green, and the rest of 255 as blue.
pub fn background_color(level: u8) -> (r: (u8, u8, u8))
    ensures
        r == (level, 64u8, (255 - level) as u8),
{
    (level, 64, 255 - level)
}

} // verus!
