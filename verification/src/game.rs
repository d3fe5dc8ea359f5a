//! The owned game state and its per-tick transition.
//!
//! Every piece of simulation state lives in one `Game` value; the
//! abstract view of that value is a `GameModel`, and the tick is given
//! first as a mathematical function on models, then as executable code
//! proved equal to it.

use vstd::prelude::*;
use crate::{GameState, Position, ACCUM_LIMIT, NAME_LIMIT, START_X, START_Y, TICK_RATE, WALL};
use crate::clock::{spec_period_us_of, period_us_of, DebounceTimer, TickTimer};
use crate::game_mode::{spec_retained, spec_spawnable, GameRules};
use crate::score::{spec_eat_step, LeaderboardEarned};
use crate::snake::{
    contains_pos, moved, snapshot, spec_control, spec_moved, spec_next_heading, spec_opposite,
    spec_pop_front, Direction,
};

verus! {

/// Half the base tick period: the debounce window of the input buffer,
/// in microseconds.
pub const DEBOUNCE_US: u64 = 100_000;

/// The typed signals one tick may produce, consumed synchronously by the
/// steps that depend on them.
#[derive(Clone, Copy, PartialEq, Eq, Structural, Debug)]
pub struct TickSignals {
    /// The head landed on the food cell this tick.
    pub ate: bool,
    /// A fatal boundary crossing or self-collision happened this tick.
    pub game_over: bool,
}

/// The abstract value of a `Game`.
#[verifier::ext_equal]
pub ghost struct GameModel {
    pub phase: GameState,
    pub rules: GameRules,
    /// Segment cells, head first.
    pub segments: Seq<Position>,
    pub heading: Direction,
    /// The cell the tail occupied before the most recent shift; a newly
    /// grown segment appears there.
    pub last_tail: Option<Position>,
    /// Buffered directions, oldest first.
    pub input_queue: Seq<Direction>,
    pub input_timer: DebounceTimer,
    pub tick_timer: TickTimer,
    /// Tick rate in hundredths of a tick per second.
    pub tick_accum: u32,
    pub score: u32,
    /// Eats are ignored for speed while the score is at or below this.
    pub score_blocker: u32,
    pub food: Option<Position>,
    pub walls: Seq<Position>,
    /// Wall candidates waiting for the snake to vacate their cell.
    pub wall_queue: Seq<Position>,
    /// The name being entered, at most `NAME_LIMIT` characters.
    pub name: Seq<char>,
    pub leaderboard_earned: LeaderboardEarned,
}

/// The whole simulation state of one process.
pub struct Game {
    pub phase: GameState,
    pub rules: GameRules,
    /// Segment cells, head first.
    pub segments: Vec<Position>,
    pub heading: Direction,
    /// The cell the tail occupied before the most recent shift.
    pub last_tail: Option<Position>,
    /// Buffered directions, oldest first.
    pub input_queue: Vec<Direction>,
    pub input_timer: DebounceTimer,
    pub tick_timer: TickTimer,
    /// Tick rate in hundredths of a tick per second.
    pub tick_accum: u32,
    pub score: u32,
    /// Eats are ignored for speed while the score is at or below this.
    pub score_blocker: u32,
    pub food: Option<Position>,
    pub walls: Vec<Position>,
    /// Wall candidates waiting for the snake to vacate their cell.
    pub wall_queue: Vec<Position>,
    /// The name being entered, at most `NAME_LIMIT` characters.
    pub name: Vec<char>,
    pub leaderboard_earned: LeaderboardEarned,
}

impl View for Game {
    type V = GameModel;

    open spec fn view(&self) -> GameModel {
        GameModel {
            phase: self.phase,
            rules: self.rules,
            segments: self.segments@,
            heading: self.heading,
            last_tail: self.last_tail,
            input_queue: self.input_queue@,
            input_timer: self.input_timer,
            tick_timer: self.tick_timer,
            tick_accum: self.tick_accum,
            score: self.score,
            score_blocker: self.score_blocker,
            food: self.food,
            walls: self.walls@,
            wall_queue: self.wall_queue@,
            name: self.name@,
            leaderboard_earned: self.leaderboard_earned,
        }
    }
}

impl GameModel {
    /// Well-formedness: the invariants every reachable state satisfies.
    /// While the game is in the Playing phase the snake is never empty and
    /// lies on the grid; food, walls and queued wall candidates lie on the
    /// grid; the tick timer always carries the period of the current tick
    /// rate; the entered name never exceeds its limit.
    pub open spec fn wf(self) -> bool {
        &&& 1 <= self.tick_accum <= ACCUM_LIMIT
        &&& self.tick_timer.wf()
        &&& self.tick_timer.period_us == spec_period_us_of(self.tick_accum)
        &&& self.input_timer.wf()
        &&& self.phase == GameState::Playing ==> self.segments.len() >= 1
        &&& self.phase == GameState::Playing
            ==> forall|i: int| 0 <= i < self.segments.len()
                ==> (#[trigger] self.segments[i]).spec_in_bounds()
        &&& self.phase == GameState::Playing
            ==> (self.last_tail matches Some(p) && p.spec_in_bounds())
        &&& (self.food matches Some(p) ==> p.spec_in_bounds())
        &&& forall|i: int| 0 <= i < self.walls.len()
            ==> (#[trigger] self.walls[i]).spec_in_bounds()
        &&& forall|i: int| 0 <= i < self.wall_queue.len()
            ==> (#[trigger] self.wall_queue[i]).spec_in_bounds()
        &&& self.name.len() <= NAME_LIMIT
    }
}

/// The movement half of a tick: adopt a buffered heading unless it is the
/// reverse of the current one, advance the head, and detect a fatal
/// boundary crossing (wall-collision mode only) or self-collision against
/// the pre-shift segment cells. On a fatal move the phase falls to
/// GameOver with the head left on the offending cell and the body
/// unshifted; otherwise each segment adopts its predecessor's cell and
/// the tail's prior cell is recorded. Returns the new model and whether
/// the move was fatal.
pub open spec fn spec_move_phase(m: GameModel) -> (GameModel, bool) {
    let h = spec_next_heading(m.heading, m.input_queue);
    let q = spec_pop_front(m.input_queue);
    let new_head = spec_moved(m.segments[0], h, !m.rules.do_collide_walls);
    let fatal = (m.rules.do_collide_walls && !new_head.spec_in_bounds())
        || m.segments.contains(new_head);
    if fatal {
        (GameModel {
            phase: GameState::GameOver,
            heading: h,
            input_queue: q,
            segments: m.segments.update(0, new_head),
            ..m
        }, true)
    } else {
        (GameModel {
            heading: h,
            input_queue: q,
            segments: seq![new_head] + m.segments.drop_last(),
            last_tail: Some(m.segments.last()),
            ..m
        }, false)
    }
}

/// The eating half of a tick, evaluated on the post-shift head: when the
/// head sits on the food cell the food despawns and the score and tick
/// rate advance by one eat step, the new period taking effect at once.
/// Returns the new model and whether an eat happened.
pub open spec fn spec_eat_phase(m: GameModel) -> (GameModel, bool) {
    if m.food == Some(m.segments[0]) {
        let (score2, accum2) = spec_eat_step(m.score, m.tick_accum, m.score_blocker);
        (GameModel {
            food: None,
            score: score2,
            tick_accum: accum2,
            tick_timer: TickTimer {
                elapsed_us: if m.tick_timer.elapsed_us < spec_period_us_of(accum2) {
                    m.tick_timer.elapsed_us
                } else {
                    0
                },
                period_us: spec_period_us_of(accum2) as u64,
            },
            ..m
        }, true)
    } else {
        (m, false)
    }
}

/// Growth after an eat: one segment appears at the cell the tail occupied
/// before this tick's shift.
pub open spec fn spec_growth_phase(m: GameModel, ate: bool) -> GameModel {
    if ate {
        GameModel { segments: m.segments.push(m.last_tail->Some_0), ..m }
    } else {
        m
    }
}

/// Wall enqueueing after an eat, in the wall-spawning mode: the eaten
/// cell (where the head now sits) becomes a deferred wall candidate.
pub open spec fn spec_enqueue_phase(m: GameModel, ate: bool) -> GameModel {
    if ate && m.rules.do_spawn_walls {
        GameModel { wall_queue: m.wall_queue.push(m.segments[0]), ..m }
    } else {
        m
    }
}

/// One full tick on a model. Outside the Playing phase a tick changes
/// nothing; a fatal move ends the run at once; otherwise eating, growth
/// and wall enqueueing follow the shift in a fixed order.
pub open spec fn spec_tick(m: GameModel) -> (GameModel, TickSignals) {
    if m.phase != GameState::Playing {
        (m, TickSignals { ate: false, game_over: false })
    } else {
        let (m1, fatal) = spec_move_phase(m);
        if fatal {
            (m1, TickSignals { ate: false, game_over: true })
        } else {
            let (m2, ate) = spec_eat_phase(m1);
            let m3 = spec_growth_phase(m2, ate);
            let m4 = spec_enqueue_phase(m3, ate);
            (m4, TickSignals { ate, game_over: false })
        }
    }
}

/// One whole frame: input buffering first, so a direction queued this
/// frame is visible to a tick this frame at the earliest; then the tick
/// clock, firing at most one tick however long the frame stalled; then
/// the tick itself, and the wall-candidate pass. Food respawn is the one
/// randomized step and is left to a separate call.
pub open spec fn spec_frame(m: GameModel, pressed: Option<Direction>, dt_us: u64)
    -> (GameModel, TickSignals) {
    let m1 = spec_control(m, pressed, dt_us);
    let fired = m1.tick_timer.spec_fires(dt_us);
    let m2 = GameModel {
        tick_timer: TickTimer {
            elapsed_us: if fired {
                0u64
            } else {
                (m1.tick_timer.elapsed_us + dt_us) as u64
            },
            period_us: m1.tick_timer.period_us,
        },
        ..m1
    };
    let (m3, sig) = if fired {
        spec_tick(m2)
    } else {
        (m2, TickSignals { ate: false, game_over: false })
    };
    let m4 = GameModel {
        walls: m3.walls + spec_spawnable(m3.wall_queue, m3.segments),
        wall_queue: spec_retained(m3.wall_queue, m3.segments),
        ..m3
    };
    (m4, sig)
}

/// The cell where the snake's head starts after a reset.
pub open spec fn spec_start_cell() -> Position {
    Position { x: START_X, y: START_Y }
}

/// The state a reset produces: a fresh length-1 snake at the start cell
/// with the given heading and its prior-tail cell directly behind it, no
/// food, no walls, no queued walls, score and blocker cleared, the tick
/// rate back at the base rate, and the phase at Playing. The chosen game
/// rules, the buffered input, the name buffer and the leaderboard
/// placement survive a reset.
pub open spec fn spec_reset(m: GameModel, d: Direction) -> GameModel {
    GameModel {
        phase: GameState::Playing,
        segments: seq![spec_start_cell()],
        heading: d,
        last_tail: Some(spec_moved(spec_start_cell(), spec_opposite(d), false)),
        tick_timer: TickTimer {
            elapsed_us: 0,
            period_us: spec_period_us_of(TICK_RATE) as u64,
        },
        tick_accum: TICK_RATE,
        score: 0,
        score_blocker: 0,
        food: None,
        walls: Seq::empty(),
        wall_queue: Seq::empty(),
        ..m
    }
}

impl Game {
    /// Whether this state satisfies every reachable-state invariant.
    pub open spec fn wf(self) -> bool {
        self@.wf()
    }

    /// The state a process starts in: main menu, classic rules, no snake,
    /// base tick rate, nothing entered and nothing cached.
    pub fn new() -> (r: Game)
        ensures
            r@ == (GameModel {
                phase: GameState::MainMenu,
                rules: GameRules { do_collide_walls: false, do_spawn_walls: false },
                segments: Seq::empty(),
                heading: Direction::Up,
                last_tail: None::<Position>,
                input_queue: Seq::empty(),
                input_timer: DebounceTimer { elapsed_us: 0u64, period_us: DEBOUNCE_US },
                tick_timer: TickTimer {
                    elapsed_us: 0u64,
                    period_us: spec_period_us_of(TICK_RATE) as u64,
                },
                tick_accum: TICK_RATE,
                score: 0u32,
                score_blocker: 0u32,
                food: None::<Position>,
                walls: Seq::empty(),
                wall_queue: Seq::empty(),
                name: Seq::empty(),
                leaderboard_earned: LeaderboardEarned::NotPlaced,
            }),
            r.wf(),
    {
        let period = period_us_of(TICK_RATE);
        let r = Game {
            phase: GameState::MainMenu,
            rules: GameRules { do_collide_walls: false, do_spawn_walls: false },
            segments: Vec::new(),
            heading: Direction::Up,
            last_tail: None,
            input_queue: Vec::new(),
            input_timer: DebounceTimer::new(DEBOUNCE_US),
            tick_timer: TickTimer::new(period),
            tick_accum: TICK_RATE,
            score: 0,
            score_blocker: 0,
            food: None,
            walls: Vec::new(),
            wall_queue: Vec::new(),
            name: Vec::new(),
            leaderboard_earned: LeaderboardEarned::NotPlaced,
        };
        proof {
            assert(r@ =~= (GameModel {
                phase: GameState::MainMenu,
                rules: GameRules { do_collide_walls: false, do_spawn_walls: false },
                segments: Seq::empty(),
                heading: Direction::Up,
                last_tail: None::<Position>,
                input_queue: Seq::empty(),
                input_timer: DebounceTimer { elapsed_us: 0u64, period_us: DEBOUNCE_US },
                tick_timer: TickTimer {
                    elapsed_us: 0u64,
                    period_us: spec_period_us_of(TICK_RATE) as u64,
                },
                tick_accum: TICK_RATE,
                score: 0u32,
                score_blocker: 0u32,
                food: None::<Position>,
                walls: Seq::empty(),
                wall_queue: Seq::empty(),
                name: Seq::empty(),
                leaderboard_earned: LeaderboardEarned::NotPlaced,
            }));
        }
        r
    }

    /// One full simulation tick; the executable counterpart of
    /// `spec_tick`. Outside the Playing phase it changes nothing. All
    /// simulation advancement is gated behind this one entry point.
    pub fn tick(&mut self) -> (signals: TickSignals)
        requires
            old(self).wf(),
        ensures
            final(self)@ == spec_tick(old(self)@).0,
            signals == spec_tick(old(self)@).1,
            final(self).wf(),
    {
        if self.phase != GameState::Playing {
            return TickSignals { ate: false, game_over: false };
        }
        let fatal = self.update_snake();
        if fatal {
            return TickSignals { ate: false, game_over: true };
        }
        let ate = self.snake_eating();
        self.snake_growth(ate);
        self.enqueue_walls(ate);
        TickSignals { ate, game_over: false }
    }

    /// One whole frame, in the fixed order the simulation prescribes:
    /// buffer this frame's input, advance the tick clock by the frame's
    /// elapsed time, run one tick when it fires, and materialize any
    /// vacated wall candidates; the executable counterpart of
    /// `spec_frame`. Food respawn after an eat is the one randomized step
    /// and stays a separate call, driven by the returned signals.
    pub fn frame(&mut self, pressed: Option<Direction>, dt_us: u64) -> (signals: TickSignals)
        requires
            old(self).wf(),
        ensures
            final(self)@ == spec_frame(old(self)@, pressed, dt_us).0,
            signals == spec_frame(old(self)@, pressed, dt_us).1,
            final(self).wf(),
    {
        self.control_snake(pressed, dt_us);
        let fired = self.tick_timer.advance(dt_us);
        let signals = if fired {
            self.tick()
        } else {
            TickSignals { ate: false, game_over: false }
        };
        self.try_spawn_walls();
        proof {
            assert(self@ =~= spec_frame(old(self)@, pressed, dt_us).0);
        }
        signals
    }

    /// Reset to a fresh run with the given start heading; the executable
    /// counterpart of `spec_reset`.
    pub fn apply_reset(&mut self, dir: Direction)
        requires
            old(self).wf(),
        ensures
            final(self)@ == spec_reset(old(self)@, dir),
            final(self).wf(),
    {
        self.phase = GameState::Playing;
        self.add_snake(dir);
        self.food = None;
        self.walls = Vec::new();
        self.wall_queue = Vec::new();
        self.tick_accum = TICK_RATE;
        let period = period_us_of(TICK_RATE);
        self.tick_timer = TickTimer::new(period);
        self.score = 0;
        self.score_blocker = 0;
        proof {
            assert(self@ =~= spec_reset(old(self)@, dir));
        }
    }

    /// Reset to a fresh run with a randomly drawn start heading.
    pub fn reset_game(&mut self)
        requires
            old(self).wf(),
        ensures
            final(self)@ == spec_reset(old(self)@, final(self).heading),
            final(self).wf(),
    {
        let r: u8 = rand::random::<u8>();
        let dir = Direction::from_index(r);
        self.apply_reset(dir);
    }
}

/// For all ticks: when a tick eats, the snake's segment count rises by
/// exactly one, and the appended segment sits at the cell the tail
/// occupied immediately before that tick's shift — the recorded
/// last-tail position.
pub proof fn lemma_eat_grows_by_one(m: GameModel)
    requires
        m.wf(),
        m.phase == GameState::Playing,
        spec_tick(m).1.ate,
    ensures
        spec_tick(m).0.segments.len() == m.segments.len() + 1,
        spec_tick(m).0.last_tail == Some(m.segments.last()),
        spec_tick(m).0.segments.last() == m.segments.last(),
{
}

/// A tick that eats advances the score and the tick rate by exactly one
/// eat step, in eat order.
pub proof fn lemma_eat_applies_eat_step(m: GameModel)
    requires
        m.wf(),
        m.phase == GameState::Playing,
        spec_tick(m).1.ate,
    ensures
        (spec_tick(m).0.score, spec_tick(m).0.tick_accum)
            == spec_eat_step(m.score, m.tick_accum, m.score_blocker),
{
}

/// For all headings: queuing the reverse of the current heading and then
/// ticking leaves the heading unchanged — reversal is rejected and the
/// queued direction is dropped.
pub proof fn lemma_reversal_rejected(m: GameModel)
    requires
        m.wf(),
        m.phase == GameState::Playing,
        m.input_queue == seq![spec_opposite(m.heading)],
    ensures
        spec_tick(m).0.heading == m.heading,
        spec_tick(m).0.input_queue == Seq::<Direction>::empty(),
{
    assert(spec_pop_front(m.input_queue) =~= Seq::<Direction>::empty());
}

/// Firing a reset twice in succession, with no tick in between, yields
/// the same final state as firing it once.
pub proof fn lemma_reset_idempotent(m: GameModel, d: Direction)
    ensures
        spec_reset(spec_reset(m, d), d) == spec_reset(m, d),
{
    assert(spec_reset(spec_reset(m, d), d) =~= spec_reset(m, d));
}

} // verus!
