// Tests for food placement, wall spawning and the leaderboard cache.

use rust_snake::food::generate_food_coords;
use rust_snake::game::Game;
use rust_snake::game_mode::GameRules;
use rust_snake::score::{Highscore, Highscores, LeaderboardEarned};
use rust_snake::snake::Direction;
use rust_snake::{GameState, Position, WALL};

fn playing_game(rules: GameRules, dir: Direction) -> Game {
    let mut g = Game::new();
    g.game_rule_changer(rules);
    g.apply_reset(dir);
    g
}

fn entry(name: &str, score: u32) -> Highscore {
    Highscore { name: name.to_string(), score }
}

// Food placement never lands on an occupied cell.
#[test]
fn food_avoids_the_snake() {
    let mut g = playing_game(
        GameRules { do_collide_walls: false, do_spawn_walls: false },
        Direction::Up,
    );
    g.segments = vec![
        Position { x: 10, y: 10 },
        Position { x: 10, y: 9 },
        Position { x: 11, y: 9 },
        Position { x: 11, y: 10 },
    ];
    for _ in 0..200 {
        g.food_spawner();
        let f = g.food.unwrap();
        assert!(0 <= f.x && f.x < WALL && 0 <= f.y && f.y < WALL);
        assert!(!g.segments.contains(&f));
    }
}

// With a single free cell left, placement finds exactly that cell.
#[test]
fn food_lands_on_the_last_free_cell() {
    let mut g = playing_game(
        GameRules { do_collide_walls: false, do_spawn_walls: false },
        Direction::Up,
    );
    let free = Position { x: 7, y: 13 };
    let mut occupied = Vec::new();
    for y in 0..WALL {
        for x in 0..WALL {
            if (Position { x, y }) != free {
                occupied.push(Position { x, y });
            }
        }
    }
    g.segments = occupied;
    g.food_spawner();
    assert_eq!(g.food, Some(free));
}

#[test]
fn random_cells_stay_on_the_grid() {
    for _ in 0..500 {
        let p = generate_food_coords();
        assert!(0 <= p.x && p.x < WALL && 0 <= p.y && p.y < WALL);
    }
}

// In the walled mode an eaten cell becomes a deferred wall candidate, and
// it materializes only once the snake has vacated it.
#[test]
fn eaten_cells_become_walls_once_vacated() {
    let mut g = playing_game(
        GameRules { do_collide_walls: true, do_spawn_walls: true },
        Direction::Up,
    );
    g.food = Some(Position { x: 10, y: 11 });
    let s = g.tick();
    assert!(s.ate);
    assert_eq!(g.wall_queue, vec![Position { x: 10, y: 11 }]);

    // the head still covers the cell: the candidate stays queued
    g.try_spawn_walls();
    assert_eq!(g.walls.len(), 0);
    assert_eq!(g.wall_queue, vec![Position { x: 10, y: 11 }]);

    // two ticks later the snake (length 2) has vacated the cell
    g.tick();
    g.tick();
    assert!(!g.segments.contains(&Position { x: 10, y: 11 }));
    g.try_spawn_walls();
    assert_eq!(g.walls, vec![Position { x: 10, y: 11 }]);
    assert_eq!(g.wall_queue.len(), 0);
}

#[test]
fn classic_mode_enqueues_no_walls() {
    let mut g = playing_game(
        GameRules { do_collide_walls: false, do_spawn_walls: false },
        Direction::Up,
    );
    g.food = Some(Position { x: 10, y: 11 });
    let s = g.tick();
    assert!(s.ate);
    assert_eq!(g.wall_queue.len(), 0);
}

#[test]
fn covered_candidates_keep_their_order() {
    let mut g = playing_game(
        GameRules { do_collide_walls: true, do_spawn_walls: true },
        Direction::Up,
    );
    g.segments = vec![Position { x: 5, y: 5 }, Position { x: 5, y: 4 }];
    g.wall_queue = vec![
        Position { x: 5, y: 5 },
        Position { x: 1, y: 1 },
        Position { x: 5, y: 4 },
        Position { x: 2, y: 2 },
    ];
    g.try_spawn_walls();
    assert_eq!(g.walls, vec![Position { x: 1, y: 1 }, Position { x: 2, y: 2 }]);
    assert_eq!(
        g.wall_queue,
        vec![Position { x: 5, y: 5 }, Position { x: 5, y: 4 }]
    );
}

#[test]
fn leaderboard_cache_accepts_sorted_lists_only() {
    let mut hs = Highscores::new();
    assert_eq!(hs.highscores.len(), 0);

    assert!(hs.replace_from_fetch(vec![
        entry("ada", 30),
        entry("bob", 20),
        entry("cyd", 20),
        entry("dee", 5),
    ]));
    assert_eq!(hs.highscores.len(), 4);
    assert_eq!(hs.highscores[0].name, "ada");

    // ascending pair: rejected, cache unchanged
    assert!(!hs.replace_from_fetch(vec![entry("eve", 1), entry("fay", 2)]));
    assert_eq!(hs.highscores.len(), 4);
    assert_eq!(hs.highscores[0].name, "ada");

    // more entries than the leaderboard holds: rejected
    assert!(!hs.replace_from_fetch(vec![
        entry("a", 6),
        entry("b", 5),
        entry("c", 4),
        entry("d", 3),
        entry("e", 2),
        entry("f", 1),
    ]));
    assert_eq!(hs.highscores.len(), 4);

    // the empty list is a valid leaderboard
    assert!(hs.replace_from_fetch(Vec::new()));
    assert_eq!(hs.highscores.len(), 0);
}

#[test]
fn placement_counts_strictly_beaten_entries() {
    let mut hs = Highscores::new();
    assert!(hs.replace_from_fetch(vec![
        entry("ada", 50),
        entry("bob", 40),
        entry("cyd", 30),
        entry("dee", 20),
        entry("eve", 10),
    ]));

    let mut g = Game::new();
    g.phase = GameState::EnterName;

    // the scan runs from the top and stops at the first entry not
    // strictly beaten, so on a descending list a score below the leader
    // does not place
    g.score = 45;
    g.calc_highscores(&hs);
    assert_eq!(g.leaderboard_earned, LeaderboardEarned::NotPlaced);

    g.score = 100;
    g.calc_highscores(&hs);
    assert_eq!(g.leaderboard_earned, LeaderboardEarned::Placed(5));

    // a tie with the top entry does not place
    g.score = 50;
    g.calc_highscores(&hs);
    assert_eq!(g.leaderboard_earned, LeaderboardEarned::NotPlaced);

    g.score = 5;
    g.calc_highscores(&hs);
    assert_eq!(g.leaderboard_earned, LeaderboardEarned::NotPlaced);
}

#[test]
fn placement_against_a_short_or_empty_cache() {
    let mut hs = Highscores::new();
    let mut g = Game::new();
    g.phase = GameState::EnterName;
    g.score = 7;
    g.calc_highscores(&hs);
    assert_eq!(g.leaderboard_earned, LeaderboardEarned::NotPlaced);

    assert!(hs.replace_from_fetch(vec![entry("ada", 3)]));
    g.calc_highscores(&hs);
    assert_eq!(g.leaderboard_earned, LeaderboardEarned::Placed(1));
}
