// Scenario tests for the simulation core: movement, collision, growth,
// speed progression and reset behaviour.

use rust_snake::cheats::{QUICK_SPEED_ACCUM, QUICK_SPEED_BLOCKER};
use rust_snake::game::Game;
use rust_snake::game_mode::GameRules;
use rust_snake::snake::Direction;
use rust_snake::{GameState, Position, BIG_TICK_INCREASE, TICK_INCREASE, TICK_RATE, WALL};

fn playing_game(rules: GameRules, dir: Direction) -> Game {
    let mut g = Game::new();
    g.game_rule_changer(rules);
    g.apply_reset(dir);
    g
}

fn classic() -> GameRules {
    GameRules { do_collide_walls: false, do_spawn_walls: false }
}

fn walled() -> GameRules {
    GameRules { do_collide_walls: true, do_spawn_walls: true }
}

#[test]
fn reset_creates_unit_snake_at_start() {
    let g = playing_game(classic(), Direction::Left);
    assert_eq!(g.phase, GameState::Playing);
    assert_eq!(g.segments.len(), 1);
    assert_eq!(g.segments[0], Position { x: 10, y: 10 });
    assert_eq!(g.heading, Direction::Left);
    // the prior-tail cell sits directly behind the head
    assert_eq!(g.last_tail, Some(Position { x: 11, y: 10 }));
    assert_eq!(g.score, 0);
    assert_eq!(g.tick_accum, TICK_RATE);
}

#[test]
fn tick_moves_head_one_cell() {
    let mut g = playing_game(classic(), Direction::Left);
    let s = g.tick();
    assert!(!s.ate && !s.game_over);
    assert_eq!(g.segments[0], Position { x: 9, y: 10 });

    let mut g = playing_game(classic(), Direction::Up);
    g.tick();
    assert_eq!(g.segments[0], Position { x: 10, y: 11 });

    let mut g = playing_game(classic(), Direction::Down);
    g.tick();
    assert_eq!(g.segments[0], Position { x: 10, y: 9 });

    let mut g = playing_game(classic(), Direction::Right);
    g.tick();
    assert_eq!(g.segments[0], Position { x: 11, y: 10 });
}

#[test]
fn borderless_mode_wraps_around() {
    let mut g = playing_game(classic(), Direction::Left);
    for _ in 0..10 {
        let s = g.tick();
        assert!(!s.game_over);
    }
    assert_eq!(g.segments[0], Position { x: 0, y: 10 });
    let s = g.tick();
    assert!(!s.game_over);
    assert_eq!(g.segments[0], Position { x: WALL - 1, y: 10 });
    assert_eq!(g.phase, GameState::Playing);
}

// Walled scenario: from (10,10) heading Left one tick reaches (9,10); ten
// more drive the head to (-1,10), and the game-over signal fires exactly
// once, on the tick where x first goes negative.
#[test]
fn wall_collision_fires_game_over_once() {
    let mut g = playing_game(
        GameRules { do_collide_walls: true, do_spawn_walls: false },
        Direction::Left,
    );
    let s = g.tick();
    assert!(!s.game_over);
    assert_eq!(g.segments[0], Position { x: 9, y: 10 });
    let mut fires = 0;
    for _ in 0..10 {
        let s = g.tick();
        if s.game_over {
            fires += 1;
        }
    }
    assert_eq!(g.segments[0], Position { x: -1, y: 10 });
    assert_eq!(fires, 1);
    assert_eq!(g.phase, GameState::GameOver);
    // once over, ticking is inert
    let s = g.tick();
    assert!(!s.game_over && !s.ate);
    assert_eq!(g.segments[0], Position { x: -1, y: 10 });
}

// Eating grows the snake by exactly one segment, appended at the cell the
// tail occupied before that tick's shift.
#[test]
fn eat_grows_by_one_at_recorded_tail() {
    let mut g = playing_game(classic(), Direction::Up);
    g.food = Some(Position { x: 10, y: 11 });
    let before = g.segments.len();
    let s = g.tick();
    assert!(s.ate);
    assert_eq!(g.segments.len(), before + 1);
    // the pre-shift tail cell was (10,10); the new segment sits there
    assert_eq!(g.last_tail, Some(Position { x: 10, y: 10 }));
    assert_eq!(g.segments[g.segments.len() - 1], Position { x: 10, y: 10 });
    assert_eq!(g.food, None);
    assert_eq!(g.score, 1);
}

// Queuing the reverse of the current heading and ticking leaves the
// heading unchanged.
#[test]
fn reversal_is_rejected() {
    let mut g = playing_game(classic(), Direction::Left);
    g.input_queue.push(Direction::Right);
    g.tick();
    assert_eq!(g.heading, Direction::Left);
    assert_eq!(g.segments[0], Position { x: 9, y: 10 });
    assert_eq!(g.input_queue.len(), 0);

    // a non-reversing queued direction is adopted
    let mut g = playing_game(classic(), Direction::Left);
    g.input_queue.push(Direction::Up);
    g.tick();
    assert_eq!(g.heading, Direction::Up);
    assert_eq!(g.segments[0], Position { x: 10, y: 11 });
}

// Two direction changes buffered within one slow tick window are applied
// over the following two ticks, one per tick, in press order.
#[test]
fn buffered_turns_apply_one_per_tick() {
    let mut g = playing_game(classic(), Direction::Left);
    g.control_snake(Some(Direction::Up), 1_000);
    g.control_snake(Some(Direction::Left), 1_000);
    assert_eq!(g.input_queue, vec![Direction::Up, Direction::Left]);
    g.tick();
    assert_eq!(g.heading, Direction::Up);
    assert_eq!(g.segments[0], Position { x: 10, y: 11 });
    assert_eq!(g.input_queue, vec![Direction::Left]);
    g.tick();
    assert_eq!(g.heading, Direction::Left);
    assert_eq!(g.segments[0], Position { x: 9, y: 11 });
    assert_eq!(g.input_queue.len(), 0);
}

#[test]
fn self_collision_fires_game_over() {
    let mut g = playing_game(classic(), Direction::Up);
    // a body folded so that moving up hits a segment
    g.segments = vec![
        Position { x: 10, y: 10 },
        Position { x: 10, y: 11 },
        Position { x: 11, y: 11 },
    ];
    let s = g.tick();
    assert!(s.game_over);
    assert_eq!(g.phase, GameState::GameOver);
}

// Speed progression: after exactly ten unblocked eats the tick rate is
// the base rate plus nine ordinary increases and one big one, in eat
// order.
#[test]
fn speed_after_ten_eats() {
    let mut g = playing_game(classic(), Direction::Up);
    for _ in 0..10 {
        let head = g.segments[0];
        let target_y = if head.y == WALL - 1 { 0 } else { head.y + 1 };
        g.food = Some(Position { x: head.x, y: target_y });
        let s = g.tick();
        assert!(s.ate);
    }
    assert_eq!(g.score, 10);
    assert_eq!(g.tick_accum, TICK_RATE + 9 * TICK_INCREASE + BIG_TICK_INCREASE);
    assert_eq!(g.tick_accum, 730);
    // the new period took effect at once
    assert_eq!(g.tick_timer.period_us, 100_000_000 / 730);
}

#[test]
fn blocked_eats_raise_score_but_not_speed() {
    let mut g = playing_game(classic(), Direction::Up);
    g.quick_speed(true);
    assert_eq!(g.tick_accum, QUICK_SPEED_ACCUM);
    assert_eq!(g.tick_accum, 1190);
    assert_eq!(g.score_blocker, QUICK_SPEED_BLOCKER);
    // an eat in the blocked window consumes food and grows, and raises
    // the score, but leaves the tick rate alone
    g.food = Some(Position { x: 10, y: 11 });
    let s = g.tick();
    assert!(s.ate);
    assert_eq!(g.score, 1);
    assert_eq!(g.segments.len(), 2);
    assert_eq!(g.tick_accum, QUICK_SPEED_ACCUM);
}

#[test]
fn quick_speed_needs_fresh_run() {
    let mut g = playing_game(classic(), Direction::Up);
    g.score = 3;
    g.quick_speed(true);
    assert_eq!(g.tick_accum, TICK_RATE);
    assert_eq!(g.score_blocker, 0);
}

// Reset during the leaderboard view clears food, segments and walls,
// recreates a length-1 snake, and takes score and tick rate back to their
// base values, whatever the prior run accumulated.
#[test]
fn reset_clears_everything() {
    let mut g = playing_game(walled(), Direction::Up);
    g.food = Some(Position { x: 10, y: 11 });
    g.tick();
    g.walls.push(Position { x: 3, y: 3 });
    g.wall_queue.push(Position { x: 4, y: 4 });
    g.tick_accum = 900;
    g.score = 17;
    g.phase = GameState::ViewingLeaderboard;

    assert!(g.quick_reset(true));
    g.reset_game();

    assert_eq!(g.phase, GameState::Playing);
    assert_eq!(g.segments.len(), 1);
    assert_eq!(g.segments[0], Position { x: 10, y: 10 });
    assert_eq!(g.food, None);
    assert_eq!(g.walls.len(), 0);
    assert_eq!(g.wall_queue.len(), 0);
    assert_eq!(g.score, 0);
    assert_eq!(g.score_blocker, 0);
    assert_eq!(g.tick_accum, TICK_RATE);
    assert_eq!(g.tick_timer.period_us, 100_000_000 / TICK_RATE as u64);
    assert_eq!(g.tick_timer.elapsed_us, 0);
    // the chosen rules survive the reset
    assert_eq!(g.rules, walled());
}

// Firing a reset twice in succession gives the same final state as firing
// it once.
#[test]
fn reset_is_idempotent() {
    let mut once = playing_game(walled(), Direction::Up);
    once.food = Some(Position { x: 10, y: 11 });
    once.tick();
    let mut twice = playing_game(walled(), Direction::Up);
    twice.food = Some(Position { x: 10, y: 11 });
    twice.tick();

    once.apply_reset(Direction::Down);
    twice.apply_reset(Direction::Down);
    twice.apply_reset(Direction::Down);

    assert_eq!(once.phase, twice.phase);
    assert_eq!(once.rules, twice.rules);
    assert_eq!(once.segments, twice.segments);
    assert_eq!(once.heading, twice.heading);
    assert_eq!(once.last_tail, twice.last_tail);
    assert_eq!(once.input_queue, twice.input_queue);
    assert_eq!(once.input_timer, twice.input_timer);
    assert_eq!(once.tick_timer, twice.tick_timer);
    assert_eq!(once.tick_accum, twice.tick_accum);
    assert_eq!(once.score, twice.score);
    assert_eq!(once.score_blocker, twice.score_blocker);
    assert_eq!(once.food, twice.food);
    assert_eq!(once.walls, twice.walls);
    assert_eq!(once.wall_queue, twice.wall_queue);
    assert_eq!(once.name, twice.name);
    assert_eq!(once.leaderboard_earned, twice.leaderboard_earned);
}

#[test]
fn tick_outside_playing_is_inert() {
    let mut g = Game::new();
    assert_eq!(g.phase, GameState::MainMenu);
    let s = g.tick();
    assert!(!s.ate && !s.game_over);
    assert_eq!(g.segments.len(), 0);
}

#[test]
fn add_snake_sets_head_heading_and_tail() {
    let mut g = Game::new();
    g.add_snake(Direction::Right);
    assert_eq!(g.segments, vec![Position { x: 10, y: 10 }]);
    assert_eq!(g.heading, Direction::Right);
    assert_eq!(g.last_tail, Some(Position { x: 9, y: 10 }));
}

#[test]
fn body_shifts_into_predecessor_cells() {
    let mut g = playing_game(classic(), Direction::Up);
    g.segments = vec![
        Position { x: 10, y: 10 },
        Position { x: 10, y: 9 },
        Position { x: 10, y: 8 },
    ];
    g.tick();
    assert_eq!(
        g.segments,
        vec![
            Position { x: 10, y: 11 },
            Position { x: 10, y: 10 },
            Position { x: 10, y: 9 },
        ]
    );
    assert_eq!(g.last_tail, Some(Position { x: 10, y: 8 }));
}
