//! Explicit debug entry points: a speed pre-seed and a quick reset key.
//! They bypass no invariant; both go through the same state as play does.

use vstd::prelude::*;
use crate::{BIG_TICK_INCREASE, TICK_INCREASE, TICK_RATE};
use crate::clock::{period_us_of, spec_period_us_of};
use crate::game::{Game, GameModel};

verus! {

/// The pre-seeded tick rate of the speed cheat: the base rate plus what
/// twenty-seven ordinary and three big increases would have added.
pub const QUICK_SPEED_ACCUM: u32 = TICK_RATE + 27 * TICK_INCREASE + 3 * BIG_TICK_INCREASE;

/// While the score is at or below this, eats add no score-driven speed;
/// the speed cheat sets it so its pre-seed is not counted twice.
pub const QUICK_SPEED_BLOCKER: u32 = 30;

impl Game {
    /// Debug shortcut: on a fresh run (no score, no blocker yet), jump
    /// the tick rate to `QUICK_SPEED_ACCUM` and block the speed effects
    /// of the first `QUICK_SPEED_BLOCKER` points, which the pre-seed
    /// already accounts for.
    pub fn quick_speed(&mut self, pressed: bool)
        requires
            old(self).wf(),
        ensures
            pressed && old(self).score == 0 && old(self).score_blocker == 0
                ==> final(self)@ == (GameModel {
                    tick_accum: QUICK_SPEED_ACCUM,
                    tick_timer: crate::clock::TickTimer {
                        elapsed_us: if old(self).tick_timer.elapsed_us
                            < spec_period_us_of(QUICK_SPEED_ACCUM) {
                            old(self).tick_timer.elapsed_us
                        } else {
                            0u64
                        },
                        period_us: spec_period_us_of(QUICK_SPEED_ACCUM) as u64,
                    },
                    score_blocker: QUICK_SPEED_BLOCKER,
                    ..old(self)@
                }),
            !(pressed && old(self).score == 0 && old(self).score_blocker == 0)
                ==> final(self)@ == old(self)@,
            final(self).wf(),
    {
        if pressed && self.score == 0 && self.score_blocker == 0 {
            self.tick_accum = QUICK_SPEED_ACCUM;
            let period = period_us_of(QUICK_SPEED_ACCUM);
            self.tick_timer.set_period(period);
            self.score_blocker = QUICK_SPEED_BLOCKER;
            proof {
                assert(self@ =~= (GameModel {
                    tick_accum: QUICK_SPEED_ACCUM,
                    tick_timer: self.tick_timer,
                    score_blocker: QUICK_SPEED_BLOCKER,
                    ..old(self)@
                }));
            }
        }
    }

    /// Debug shortcut: holding the quick-reset key fires a reset from any
    /// phase.
    pub fn quick_reset(&self, pressed: bool) -> (reset: bool)
        ensures
            reset == pressed,
    {
        pressed
    }
}

} // verus!
