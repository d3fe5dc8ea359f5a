//! Core of a grid-based snake game: fixed-tick movement simulation,
//! input buffering, dynamic tick-rate progression, food and wall placement,
//! the top-level game-phase state machine, and a high-score leaderboard cache.
//!
//! Rendering, windowing and the network client around this core are kept
//! outside the library; they exchange plain values (positions, scores,
//! key events) with it.
//!
//! Tick rates are held in fixed point, as hundredths of a tick per second,
//! so that speed progression is exact integer arithmetic.

use vstd::prelude::*;

pub mod clock;
pub mod snake;
pub mod game_mode;
pub mod score;
pub mod game;
pub mod food;
pub mod phase;
pub mod cheats;
pub mod rng;

verus! {

/// Base tick rate, in hundredths of a tick per second (5 ticks/s).
pub const TICK_RATE: u32 = 500;

/// Tick-rate increase per eat, in hundredths of a tick per second.
pub const TICK_INCREASE: u32 = 20;

/// Tick-rate increase on every 10th point, in hundredths of a tick per second.
pub const BIG_TICK_INCREASE: u32 = 50;

/// Side length of the square grid; coordinates range over `[0, WALL)`.
pub const WALL: i32 = 20;

/// Upper bound on the tick rate (hundredths of a tick per second); the
/// tick period never drops below one microsecond.
pub const ACCUM_LIMIT: u32 = 100_000_000;

/// Most characters a high-score name may hold.
pub const NAME_LIMIT: usize = 10;

/// Most entries the leaderboard holds.
pub const LEADERBOARD_LIMIT: usize = 5;

/// Grid cell where the snake's head starts after a reset.
pub const START_X: i32 = 10;

/// Grid cell where the snake's head starts after a reset.
pub const START_Y: i32 = 10;

/// An integer grid coordinate. During play every segment, food cell and
/// wall cell lies in `[0, WALL)` on both axes; only a fatal head move in
/// wall-collision mode may leave a head coordinate one step outside.
#[derive(Clone, Copy, PartialEq, Eq, Structural, Debug)]
pub struct Position {
    pub x: i32,
    pub y: i32,
}

impl Position {
    /// Whether the cell lies on the grid.
    pub open spec fn spec_in_bounds(self) -> bool {
        0 <= self.x < WALL && 0 <= self.y < WALL
    }

    /// Whether the cell lies on the grid.
    pub fn in_bounds(self) -> (r: bool)
        ensures
            r == self.spec_in_bounds(),
    {
        0 <= self.x && self.x < WALL && 0 <= self.y && self.y < WALL
    }

    /// Whether the cell lies on the outermost ring of the grid.
    pub open spec fn spec_on_edge(self) -> bool {
        self.x == 0 || self.x == WALL - 1 || self.y == 0 || self.y == WALL - 1
    }

    /// Whether the cell lies on the outermost ring of the grid.
    pub fn on_edge(self) -> (r: bool)
        ensures
            r == self.spec_on_edge(),
    {
        self.x == 0 || self.x == WALL - 1 || self.y == 0 || self.y == WALL - 1
    }
}

/// Top-level phase of the game; gates which transitions may run.
#[derive(Clone, Copy, PartialEq, Eq, Structural, Debug)]
pub enum GameState {
    MainMenu,
    Playing,
    GameOver,
    ViewingLeaderboard,
    EnterName,
    ReadyToReset,
}

} // verus!
