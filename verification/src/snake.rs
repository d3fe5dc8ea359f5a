//! The snake itself: headings, grid movement, and small verified helpers
//! over segment lists. The per-tick transition lives on `Game`.

use vstd::prelude::*;
use crate::{GameState, Position, START_X, START_Y, WALL};
use crate::clock::DebounceTimer;
use crate::game::{Game, GameModel, spec_start_cell};

verus! {

/// A heading of the snake, or a buffered direction key.
#[derive(Clone, Copy, PartialEq, Eq, Structural, Debug)]
pub enum Direction {
    Up,
    Down,
    Left,
    Right,
}

/// The reverse of a heading; a queued direction equal to the reverse of
/// the current heading is dropped rather than adopted.
pub open spec fn spec_opposite(d: Direction) -> Direction {
    match d {
        Direction::Left => Direction::Right,
        Direction::Right => Direction::Left,
        Direction::Up => Direction::Down,
        Direction::Down => Direction::Up,
    }
}

impl Direction {
    /// The reverse of this heading.
    pub fn opposite(self) -> (r: Direction)
        ensures
            r == spec_opposite(self),
    {
        match self {
            Direction::Left => Direction::Right,
            Direction::Right => Direction::Left,
            Direction::Up => Direction::Down,
            Direction::Down => Direction::Up,
        }
    }

    /// The heading a small index stands for; used to pick a random
    /// start heading from a random byte.
    pub fn from_index(i: u8) -> (r: Direction)
        ensures
            i % 4 == 0 ==> r == Direction::Up,
            i % 4 == 1 ==> r == Direction::Down,
            i % 4 == 2 ==> r == Direction::Left,
            i % 4 == 3 ==> r == Direction::Right,
    {
        match i % 4 {
            0 => Direction::Up,
            1 => Direction::Down,
            2 => Direction::Left,
            _ => Direction::Right,
        }
    }
}

impl Default for Direction {
    /// The heading before any game has started.
    fn default() -> (r: Direction)
        ensures
            r == Direction::Up,
    {
        Direction::Up
    }
}

/// The cell one step from `p` in direction `h`. With `wrap` the result is
/// folded back onto the grid (the borderless game mode); without it the
/// result may leave the grid by one cell, which the caller treats as a
/// fatal boundary crossing.
pub open spec fn spec_moved(p: Position, h: Direction, wrap: bool) -> Position {
    match h {
        Direction::Up => Position {
            x: p.x,
            y: if wrap && p.y == WALL - 1 { 0i32 } else { (p.y + 1) as i32 },
        },
        Direction::Down => Position {
            x: p.x,
            y: if wrap && p.y == 0 { (WALL - 1) as i32 } else { (p.y - 1) as i32 },
        },
        Direction::Right => Position {
            x: if wrap && p.x == WALL - 1 { 0i32 } else { (p.x + 1) as i32 },
            y: p.y,
        },
        Direction::Left => Position {
            x: if wrap && p.x == 0 { (WALL - 1) as i32 } else { (p.x - 1) as i32 },
            y: p.y,
        },
    }
}

/// The cell one step from `p` in direction `h`; see `spec_moved`.
pub fn moved(p: Position, h: Direction, wrap: bool) -> (r: Position)
    requires
        p.spec_in_bounds(),
    ensures
        r == spec_moved(p, h, wrap),
        wrap ==> r.spec_in_bounds(),
        -1 <= r.x <= WALL && -1 <= r.y <= WALL,
{
    match h {
        Direction::Up => Position {
            x: p.x,
            y: if wrap && p.y == WALL - 1 { 0 } else { p.y + 1 },
        },
        Direction::Down => Position {
            x: p.x,
            y: if wrap && p.y == 0 { WALL - 1 } else { p.y - 1 },
        },
        Direction::Right => Position {
            x: if wrap && p.x == WALL - 1 { 0 } else { p.x + 1 },
            y: p.y,
        },
        Direction::Left => Position {
            x: if wrap && p.x == 0 { WALL - 1 } else { p.x - 1 },
            y: p.y,
        },
    }
}

/// The heading adopted on a tick: the oldest queued direction, unless it
/// is the reverse of the current heading, in which case it is dropped and
/// the heading is kept.
pub open spec fn spec_next_heading(h: Direction, q: Seq<Direction>) -> Direction {
    if q.len() > 0 && q[0] != spec_opposite(h) {
        q[0]
    } else {
        h
    }
}

/// The input queue after a tick consumed its oldest entry, if any.
pub open spec fn spec_pop_front(q: Seq<Direction>) -> Seq<Direction> {
    if q.len() > 0 {
        q.subrange(1, q.len() as int)
    } else {
        q
    }
}

/// Whether `p` occurs among the positions in `v`.
pub fn contains_pos(v: &Vec<Position>, p: Position) -> (r: bool)
    ensures
        r == v@.contains(p),
{
    let mut i: usize = 0;
    while i < v.len()
        invariant
            i <= v.len(),
            forall|j: int| 0 <= j < i ==> v@[j] != p,
        decreases v.len() - i,
    {
        if v[i] == p {
            proof {
                assert(v@[i as int] == p);
            }
            return true;
        }
        i = i + 1;
    }
    proof {
        assert(forall|j: int| 0 <= j < v@.len() ==> v@[j] != p);
    }
    false
}

/// A copy of a position list; the per-tick shift works from a snapshot of
/// the pre-shift positions.
pub fn snapshot(v: &Vec<Position>) -> (r: Vec<Position>)
    ensures
        r@ == v@,
{
    let mut r: Vec<Position> = Vec::new();
    let mut i: usize = 0;
    while i < v.len()
        invariant
            i <= v.len(),
            r@ == v@.take(i as int),
        decreases v.len() - i,
    {
        r.push(v[i]);
        proof {
            assert(r@ =~= v@.take(i as int + 1));
        }
        i = i + 1;
    }
    proof {
        assert(r@ =~= v@);
    }
    r
}

/// The direction the player pressed this frame, if any; when several are
/// somehow down at once, the first in Up, Right, Down, Left order wins.
pub open spec fn spec_sample_direction(up: bool, right: bool, down: bool, left: bool)
    -> Option<Direction> {
    if up {
        Some(Direction::Up)
    } else if right {
        Some(Direction::Right)
    } else if down {
        Some(Direction::Down)
    } else if left {
        Some(Direction::Left)
    } else {
        None
    }
}

/// The direction the player pressed this frame, if any; see
/// `spec_sample_direction` for the priority order.
pub fn sample_direction(up: bool, right: bool, down: bool, left: bool) -> (r: Option<Direction>)
    ensures
        r == spec_sample_direction(up, right, down, left),
{
    if up {
        Some(Direction::Up)
    } else if right {
        Some(Direction::Right)
    } else if down {
        Some(Direction::Down)
    } else if left {
        Some(Direction::Left)
    } else {
        None
    }
}

/// The input buffer after one frame: the debounce timer advances by the
/// frame's elapsed time; a new press restarts it and joins the queue
/// (a stale queue is dropped first); with no press, a lapsed timer
/// discards the whole queue.
pub open spec fn spec_control(m: GameModel, pressed: Option<Direction>, dt_us: u64) -> GameModel {
    let advanced = DebounceTimer {
        elapsed_us: if m.input_timer.elapsed_us + dt_us >= m.input_timer.period_us {
            m.input_timer.period_us
        } else {
            (m.input_timer.elapsed_us + dt_us) as u64
        },
        period_us: m.input_timer.period_us,
    };
    match pressed {
        Some(d) => GameModel {
            input_queue: if advanced.spec_lapsed() {
                Seq::empty().push(d)
            } else {
                m.input_queue.push(d)
            },
            input_timer: DebounceTimer { elapsed_us: 0u64, period_us: advanced.period_us },
            ..m
        },
        None => {
            if advanced.spec_lapsed() {
                GameModel { input_queue: Seq::empty(), input_timer: advanced, ..m }
            } else {
                GameModel { input_timer: advanced, ..m }
            }
        }
    }
}

impl Game {
    /// Recreate the snake for a fresh run: one segment at the start cell,
    /// the given heading, and the prior-tail cell directly behind the
    /// head, so that the first growth appears where a tail would have
    /// been.
    pub fn add_snake(&mut self, dir: Direction)
        ensures
            final(self)@ == (GameModel {
                segments: seq![spec_start_cell()],
                heading: dir,
                last_tail: Some(spec_moved(spec_start_cell(), spec_opposite(dir), false)),
                ..old(self)@
            }),
    {
        let start = Position { x: START_X, y: START_Y };
        let mut segs: Vec<Position> = Vec::new();
        segs.push(start);
        self.segments = segs;
        self.heading = dir;
        self.last_tail = Some(moved(start, dir.opposite(), false));
        proof {
            assert(self@ =~= (GameModel {
                segments: seq![spec_start_cell()],
                heading: dir,
                last_tail: Some(spec_moved(spec_start_cell(), spec_opposite(dir), false)),
                ..old(self)@
            }));
        }
    }

    /// One frame of input buffering; see `spec_control`.
    pub fn control_snake(&mut self, pressed: Option<Direction>, dt_us: u64)
        requires
            old(self).wf(),
        ensures
            final(self)@ == spec_control(old(self)@, pressed, dt_us),
            final(self).wf(),
    {
        self.input_timer.advance(dt_us);
        match pressed {
            Some(d) => {
                if self.input_timer.lapsed() {
                    self.input_queue.clear();
                }
                self.input_queue.push(d);
                self.input_timer.restart();
            }
            None => {
                if self.input_timer.lapsed() {
                    self.input_queue.clear();
                }
            }
        }
        proof {
            assert(self@ =~= spec_control(old(self)@, pressed, dt_us));
        }
    }

    /// Growth after an eat: one segment appears at the cell the tail
    /// occupied before this tick's shift. The executable counterpart of
    /// `spec_growth_phase`.
    pub fn snake_growth(&mut self, ate: bool)
        requires
            old(self).wf(),
            old(self).phase == GameState::Playing,
        ensures
            final(self)@ == crate::game::spec_growth_phase(old(self)@, ate),
            final(self).wf(),
    {
        if ate {
            // in the Playing phase a prior-tail cell is always on record
            let t = match self.last_tail {
                Some(t) => t,
                None => vstd::pervasive::unreached(),
            };
            self.segments.push(t);
            proof {
                assert(self@ =~= crate::game::spec_growth_phase(old(self)@, ate));
            }
        }
    }

    /// The movement half of a tick; the executable counterpart of
    /// `spec_move_phase`. Returns whether the move was fatal.
    pub fn update_snake(&mut self) -> (fatal: bool)
        requires
            old(self).wf(),
            old(self).phase == GameState::Playing,
        ensures
            final(self)@ == crate::game::spec_move_phase(old(self)@).0,
            fatal == crate::game::spec_move_phase(old(self)@).1,
            final(self).wf(),
            final(self).phase == if fatal { GameState::GameOver } else { GameState::Playing },
    {
        if self.input_queue.len() > 0 {
            let d = self.input_queue.remove(0);
            if d != self.heading.opposite() {
                self.heading = d;
            }
            proof {
                assert(self.input_queue@ =~= spec_pop_front(old(self).input_queue@));
            }
        }
        let old_positions = snapshot(&self.segments);
        let new_head = moved(self.segments[0], self.heading, !self.rules.do_collide_walls);
        let fatal = (self.rules.do_collide_walls && !new_head.in_bounds())
            || contains_pos(&old_positions, new_head);
        if fatal {
            self.segments[0] = new_head;
            self.phase = GameState::GameOver;
            proof {
                assert(self@ =~= crate::game::spec_move_phase(old(self)@).0);
            }
            true
        } else {
            let n = self.segments.len();
            self.segments[0] = new_head;
            let ghost pre = self@;
            let mut i: usize = 1;
            while i < n
                invariant
                    1 <= i <= n,
                    n == self.segments@.len(),
                    n == old_positions@.len(),
                    self@ == (GameModel { segments: self.segments@, ..pre }),
                    self.segments@[0] == new_head,
                    forall|j: int| 1 <= j < i ==> self.segments@[j] == old_positions@[j - 1],
                    forall|j: int| i <= j < n ==> self.segments@[j] == old_positions@[j],
                decreases n - i,
            {
                self.segments[i] = old_positions[i - 1];
                i = i + 1;
            }
            self.last_tail = Some(old_positions[n - 1]);
            proof {
                assert(self.segments@
                    =~= seq![new_head] + old(self).segments@.drop_last());
                assert(self@ =~= crate::game::spec_move_phase(old(self)@).0);
            }
            false
        }
    }
}

} // verus!
