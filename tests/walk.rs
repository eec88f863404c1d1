use sprite_walk::game::{background_color, next_color_step, Game, InputEvent, Key, COLOR_CYCLE};
use sprite_walk::geometry::{Position, Rect, MAX_COORD, MIN_COORD};
use sprite_walk::pacing::{elapsed_ticks, frame_sleep, sleep_duration, FRAME_DELAY};
use sprite_walk::player::{
    screen_rect, source_rect, update_player, Player, PLAYER_MOVEMENT_SPEED,
};
use sprite_walk::sprite::{direction_spritesheet_row, Direction};

fn down(key: Key) -> InputEvent {
    InputEvent::KeyDown { key, repeat: false }
}

fn up(key: Key) -> InputEvent {
    InputEvent::KeyUp { key, repeat: false }
}

#[test]
fn rows_follow_the_sheet_layout() {
    assert_eq!(direction_spritesheet_row(Direction::Down), 0);
    assert_eq!(direction_spritesheet_row(Direction::Left), 1);
    assert_eq!(direction_spritesheet_row(Direction::Right), 2);
    assert_eq!(direction_spritesheet_row(Direction::Up), 3);
}

#[test]
fn source_rect_indexes_frame_and_row() {
    let dirs = [Direction::Up, Direction::Down, Direction::Left, Direction::Right];
    for frame in 0..3u32 {
        for d in dirs {
            let mut p = Player::new();
            p.sprite = Rect::new(4, 7, 26, 36);
            p.current_frame = frame;
            p.direction = d;
            let r = source_rect(&p);
            assert_eq!(r.x, 4 + 26 * frame as i32);
            assert_eq!(r.y, 7 + 36 * direction_spritesheet_row(d));
            assert_eq!((r.width, r.height), (26, 36));
        }
    }
}

#[test]
fn source_rect_of_start_player() {
    let r = source_rect(&Player::new());
    assert_eq!(r, Rect { x: 0, y: 72, width: 26, height: 36 });
}

#[test]
fn screen_rect_centers_on_screen() {
    let p = Player::new();
    assert_eq!(screen_rect(&p, 800, 600), Rect { x: 387, y: 282, width: 26, height: 36 });
    let mut q = Player::new();
    q.position = Position::new(5, -10);
    assert_eq!(screen_rect(&q, 800, 600), Rect { x: 392, y: 272, width: 26, height: 36 });
}

#[test]
fn idle_steps_change_nothing() {
    let mut p = Player::new();
    p.position = Position::new(12, -3);
    p.current_frame = 2;
    p.direction = Direction::Up;
    let before = p;
    for _ in 0..10 {
        update_player(&mut p);
        assert_eq!(p, before);
    }
}

#[test]
fn walk_frames_cycle() {
    let mut p = Player::new();
    p.speed = PLAYER_MOVEMENT_SPEED;
    for k in 1..=9u32 {
        update_player(&mut p);
        assert_eq!(p.current_frame, k % 3);
    }
}

#[test]
fn a_step_moves_along_one_axis() {
    let dirs = [Direction::Up, Direction::Down, Direction::Left, Direction::Right];
    for d in dirs {
        let mut p = Player::new();
        p.position = Position::new(100, 200);
        p.speed = PLAYER_MOVEMENT_SPEED;
        p.direction = d;
        update_player(&mut p);
        let moved_x = p.position.x != 100;
        let moved_y = p.position.y != 200;
        assert!(moved_x != moved_y);
        let expected = match d {
            Direction::Up => (100, 195),
            Direction::Down => (100, 205),
            Direction::Left => (95, 200),
            Direction::Right => (105, 200),
        };
        assert_eq!((p.position.x, p.position.y), expected);
    }
}

#[test]
fn a_step_saturates_at_the_edge() {
    let mut p = Player::new();
    p.position = Position::new(MAX_COORD - 2, 0);
    p.speed = PLAYER_MOVEMENT_SPEED;
    update_player(&mut p);
    assert_eq!(p.position, Position { x: MAX_COORD, y: 0 });
    p.direction = Direction::Up;
    p.position = Position::new(0, MIN_COORD + 1);
    update_player(&mut p);
    assert_eq!(p.position, Position { x: 0, y: MIN_COORD });
}

#[test]
fn position_new_saturates() {
    assert_eq!(Position::new(i32::MAX, i32::MIN), Position { x: MAX_COORD, y: MIN_COORD });
    assert_eq!(Position::new(3, -4).offset(i32::MAX, i32::MIN), Position {
        x: MAX_COORD,
        y: MIN_COORD,
    });
}

#[test]
fn rect_new_makes_sizes_valid() {
    let r = Rect::new(i32::MIN, 5, 0, u32::MAX);
    assert_eq!(r, Rect { x: MIN_COORD, y: 5, width: 1, height: 1073741823 });
    let c = Rect::from_center(Position::new(10, 10), 4, 6);
    assert_eq!(c, Rect { x: 8, y: 7, width: 4, height: 6 });
}

#[test]
fn pacer_sleeps_the_rest_of_the_budget() {
    assert_eq!(FRAME_DELAY, 16);
    assert_eq!(sleep_duration(16, 0), 16);
    assert_eq!(sleep_duration(16, 10), 6);
    assert_eq!(sleep_duration(16, 16), 0);
    assert_eq!(sleep_duration(16, 40), 0);
    assert_eq!(frame_sleep(1000, 1003), 13);
    assert_eq!(frame_sleep(1000, 1020), 0);
}

#[test]
fn elapsed_ticks_wraps_around() {
    assert_eq!(elapsed_ticks(10, 25), 15);
    assert_eq!(elapsed_ticks(u32::MAX - 4, 5), 10);
    assert_eq!(frame_sleep(u32::MAX, 2), 13);
}

#[test]
fn key_down_then_step_walks_right() {
    let mut g = Game::new();
    assert_eq!(g.player.position, Position { x: 0, y: 0 });
    assert_eq!(g.player.direction, Direction::Right);
    assert_eq!(g.player.speed, 0);
    g.tick(&vec![down(Key::Right)]);
    assert_eq!(g.player.speed, 5);
    assert_eq!(g.player.position, Position { x: 5, y: 0 });
    assert_eq!(g.player.current_frame, 1);
}

#[test]
fn key_up_then_step_stands_still() {
    let mut g = Game::new();
    g.tick(&vec![down(Key::Right)]);
    g.handle_event(up(Key::Right));
    assert_eq!(g.player.speed, 0);
    g.tick(&vec![]);
    assert_eq!(g.player.position, Position { x: 5, y: 0 });
    assert_eq!(g.player.current_frame, 1);
    assert_eq!(g.player.direction, Direction::Right);
}

#[test]
fn last_key_down_wins() {
    let mut g = Game::new();
    g.handle_events(&vec![down(Key::Up), down(Key::Left)]);
    assert_eq!(g.player.direction, Direction::Left);
    assert_eq!(g.player.speed, PLAYER_MOVEMENT_SPEED);
    g.tick(&vec![]);
    assert_eq!(g.player.position, Position { x: -5, y: 0 });
}

#[test]
fn any_arrow_release_stops_the_player() {
    let mut g = Game::new();
    g.handle_events(&vec![down(Key::Up), up(Key::Down)]);
    assert_eq!(g.player.speed, 0);
    assert_eq!(g.player.direction, Direction::Up);
}

#[test]
fn repeats_and_other_keys_are_ignored() {
    let mut g = Game::new();
    g.handle_events(&vec![
        InputEvent::KeyDown { key: Key::Up, repeat: true },
        down(Key::Other),
        InputEvent::Other,
    ]);
    assert_eq!(g, Game::new());
    g.handle_event(down(Key::Left));
    g.handle_event(InputEvent::KeyUp { key: Key::Left, repeat: true });
    assert_eq!(g.player.speed, 5);
    assert!(g.running);
}

#[test]
fn quit_and_escape_stop_the_loop() {
    let mut g = Game::new();
    g.handle_event(InputEvent::Quit);
    assert!(!g.running);
    let mut h = Game::new();
    h.handle_event(InputEvent::KeyDown { key: Key::Escape, repeat: true });
    assert!(!h.running);
    let mut k = Game::new();
    k.tick(&vec![down(Key::Escape)]);
    assert!(!k.running);
    assert_eq!(k.color_step, 1);
}

#[test]
fn color_cycle_returns_after_255_ticks() {
    let mut g = Game::new();
    assert_eq!(g.color_step, 0);
    for t in 1..=255u32 {
        g.tick(&vec![]);
        assert_eq!(g.color_step as u32, t % 255);
    }
    assert_eq!(g.color_step, 0);
    assert_eq!(COLOR_CYCLE, 255);
}

#[test]
fn next_color_step_wraps() {
    assert_eq!(next_color_step(0), 1);
    assert_eq!(next_color_step(253), 254);
    assert_eq!(next_color_step(254), 0);
    assert_eq!(next_color_step(255), 1);
}

#[test]
fn background_color_mixes_red_and_blue() {
    assert_eq!(background_color(0), (0, 64, 255));
    assert_eq!(background_color(200), (200, 64, 55));
}

#[test]
fn validity_checks() {
    let mut g = Game::new();
    assert!(g.check_valid());
    g.tick(&vec![down(Key::Down)]);
    assert!(g.check_valid());
    g.player.current_frame = 3;
    assert!(!g.check_valid());
    let mut p = Player::new();
    p.speed = -1;
    assert!(!p.check_valid());
    let mut q = Player::new();
    q.sprite.width = 0;
    assert!(!q.check_valid());
    assert!(!Position { x: MAX_COORD + 1, y: 0 }.check_valid());
    let mut h = Game::new();
    h.color_step = COLOR_CYCLE;
    assert!(!h.check_valid());
}
