//! Score and speed progression, and the high-score leaderboard cache.
//!
//! The leaderboard is an owned service object: the network client outside
//! the library fetches and posts entries and hands them over as plain
//! values; the cache itself only ever changes wholesale.

use vstd::prelude::*;
use crate::{GameState, ACCUM_LIMIT, BIG_TICK_INCREASE, LEADERBOARD_LIMIT, TICK_INCREASE};
use crate::clock::period_us_of;
use crate::game::{Game, GameModel};

verus! {

/// One leaderboard entry.
#[derive(Clone, Debug)]
pub struct Highscore {
    pub name: String,
    pub score: u32,
}

/// Whether the entered score earned a leaderboard place, and which.
#[derive(Clone, Copy, PartialEq, Eq, Structural, Debug)]
pub enum LeaderboardEarned {
    Placed(u8),
    NotPlaced,
}

/// Scores in a leaderboard never increase from one entry to the next.
pub open spec fn spec_sorted_desc(s: Seq<Highscore>) -> bool {
    forall|i: int, j: int| 0 <= i <= j < s.len() ==> s[i].score >= s[j].score
}

/// The leaderboard cache: at most `LEADERBOARD_LIMIT` entries, ordered by
/// descending score. Initialized empty; replaced wholesale on a
/// successful fetch; never partially mutated.
#[derive(Clone, Debug)]
pub struct Highscores {
    pub highscores: Vec<Highscore>,
}

impl Highscores {
    /// A cache that holds what it claims: few enough entries, in order.
    pub open spec fn wf(self) -> bool {
        self.highscores@.len() <= LEADERBOARD_LIMIT && spec_sorted_desc(self.highscores@)
    }

    /// The empty cache the process starts with.
    pub fn new() -> (r: Highscores)
        ensures
            r.highscores@.len() == 0,
            r.wf(),
    {
        Highscores { highscores: Vec::new() }
    }

    /// Replace the cache wholesale with a fetched list, provided the list
    /// is well formed: at most `LEADERBOARD_LIMIT` entries, descending by
    /// score. A malformed list is treated as a failed fetch and leaves
    /// the cache unchanged; the result says whether it was taken.
    pub fn replace_from_fetch(&mut self, entries: Vec<Highscore>) -> (accepted: bool)
        ensures
            accepted == (entries@.len() <= LEADERBOARD_LIMIT && spec_sorted_desc(entries@)),
            accepted ==> final(self).highscores@ == entries@,
            !accepted ==> *final(self) == *old(self),
            old(self).wf() ==> final(self).wf(),
    {
        if entries.len() > LEADERBOARD_LIMIT {
            return false;
        }
        let mut i: usize = 1;
        while i < entries.len()
            invariant
                1 <= i,
                i <= entries@.len() || entries@.len() == 0,
                forall|a: int, b: int| 0 <= a <= b < i && b < entries@.len()
                    ==> entries@[a].score >= entries@[b].score,
            decreases entries.len() - i,
        {
            if entries[i - 1].score < entries[i].score {
                return false;
            }
            i = i + 1;
        }
        proof {
            assert forall|a: int, b: int| 0 <= a <= b < entries@.len()
                implies entries@[a].score >= entries@[b].score by {
                // transitivity along adjacent pairs is already implied by
                // the loop's pairwise-prefix invariant
            }
        }
        self.highscores = entries;
        true
    }
}

/// One eat's effect on the score and the tick rate, before the score
/// blocker and the every-10th-point bonus are taken into account:
/// the score rises by one; while it is at or below the blocker the rate
/// keeps its value; otherwise the rate rises by `BIG_TICK_INCREASE` on
/// every 10th point and by `TICK_INCREASE` on any other. Increments stop
/// at the representable limits rather than overflow.
pub open spec fn spec_eat_step(score: u32, accum: u32, blocker: u32) -> (u32, u32) {
    let score2 = if score < u32::MAX { (score + 1) as u32 } else { score };
    if score2 <= blocker {
        (score2, accum)
    } else {
        let inc = if score2 % 10 == 0 { BIG_TICK_INCREASE } else { TICK_INCREASE };
        let accum2 = if accum + inc <= ACCUM_LIMIT { (accum + inc) as u32 } else { accum };
        (score2, accum2)
    }
}

/// The score and tick rate after `n` consecutive eats.
pub open spec fn spec_eats(n: nat, score: u32, accum: u32, blocker: u32) -> (u32, u32)
    decreases n,
{
    if n == 0 {
        (score, accum)
    } else {
        let prev = spec_eats((n - 1) as nat, score, accum, blocker);
        spec_eat_step(prev.0, prev.1, blocker)
    }
}

impl Game {
    /// The eating half of a tick, on the post-shift head; the executable
    /// counterpart of `spec_eat_phase`. Returns whether an eat happened.
    pub fn snake_eating(&mut self) -> (ate: bool)
        requires
            old(self).wf(),
            old(self).phase == GameState::Playing,
        ensures
            final(self)@ == crate::game::spec_eat_phase(old(self)@).0,
            ate == crate::game::spec_eat_phase(old(self)@).1,
            final(self).wf(),
    {
        let head = self.segments[0];
        let ate = match self.food {
            Some(f) => f == head,
            None => false,
        };
        if ate {
            self.food = None;
            if self.score < u32::MAX {
                self.score = self.score + 1;
            }
            if self.score > self.score_blocker {
                let inc = if self.score % 10 == 0 { BIG_TICK_INCREASE } else { TICK_INCREASE };
                if self.tick_accum <= ACCUM_LIMIT - inc {
                    self.tick_accum = self.tick_accum + inc;
                }
            }
            // apply the (possibly unchanged) rate to the tick timer at once
            let period = period_us_of(self.tick_accum);
            self.tick_timer.set_period(period);
            proof {
                assert(self@ =~= crate::game::spec_eat_phase(old(self)@).0);
            }
        }
        ate
    }

    /// Whether the just-ended run's score earned a place among the first
    /// `LEADERBOARD_LIMIT` cached entries, and which: the number of
    /// leading entries it strictly beats, scanning from the top until one
    /// is at least as good.
    pub fn calc_highscores(&mut self, highscores: &Highscores)
        ensures
            final(self)@ == (GameModel {
                leaderboard_earned: final(self)@.leaderboard_earned,
                ..old(self)@
            }),
            ({
                let entries = highscores.highscores@;
                let limit: int = if entries.len() < LEADERBOARD_LIMIT {
                    entries.len() as int
                } else {
                    LEADERBOARD_LIMIT as int
                };
                match final(self).leaderboard_earned {
                    LeaderboardEarned::Placed(i) => {
                        &&& 1 <= i <= limit
                        &&& forall|j: int| 0 <= j < i
                            ==> old(self).score > (#[trigger] entries[j]).score
                        &&& i < limit ==> old(self).score <= entries[i as int].score
                    },
                    LeaderboardEarned::NotPlaced =>
                        limit == 0 || old(self).score <= entries[0].score,
                }
            }),
            old(self).wf() ==> final(self).wf(),
    {
        let entries_len = highscores.highscores.len();
        let limit = if entries_len < LEADERBOARD_LIMIT { entries_len } else { LEADERBOARD_LIMIT };
        let mut i: usize = 0;
        while i < limit && self.score > highscores.highscores[i].score
            invariant
                0 <= i <= limit,
                limit <= highscores.highscores@.len(),
                limit <= LEADERBOARD_LIMIT,
                forall|j: int| 0 <= j < i
                    ==> self.score > (#[trigger] highscores.highscores@[j]).score,
            decreases limit - i,
        {
            i = i + 1;
        }
        if i > 0 {
            // LEADERBOARD_LIMIT fits in u8
            self.leaderboard_earned = LeaderboardEarned::Placed(i as u8);
        } else {
            self.leaderboard_earned = LeaderboardEarned::NotPlaced;
        }
        proof {
            assert(self@ =~= (GameModel { leaderboard_earned: self.leaderboard_earned, ..old(self)@ }));
        }
    }
}

/// Speed progression over the first ten eats of a run: none blocked, the
/// first nine each add `TICK_INCREASE`, and the tenth, landing on a score
/// divisible by ten, adds `BIG_TICK_INCREASE` — nine small and one big
/// increment over the base rate, accumulated in eat order.
pub proof fn lemma_speed_after_ten_eats(base: u32)
    requires
        base + 9 * TICK_INCREASE + BIG_TICK_INCREASE <= ACCUM_LIMIT,
    ensures
        spec_eats(10, 0, base, 0) == ((10u32,
            (base + 9 * TICK_INCREASE + BIG_TICK_INCREASE) as u32)),
{
    reveal_with_fuel(spec_eats, 11);
}

/// The closed form of the speed progression from a fresh run: after `n`
/// unblocked eats the score is exactly `n`, and the tick rate has risen
/// by one ordinary increase per eat plus the big-increase surplus on
/// every tenth point, accumulated in eat order.
pub proof fn lemma_speed_progression(n: u32, base: u32)
    requires
        base + n * TICK_INCREASE + (n / 10) * (BIG_TICK_INCREASE - TICK_INCREASE)
            <= ACCUM_LIMIT,
    ensures
        spec_eats(n as nat, 0, base, 0).0 == n,
        spec_eats(n as nat, 0, base, 0).1 == (base + n * TICK_INCREASE
            + (n / 10) * (BIG_TICK_INCREASE - TICK_INCREASE)) as u32,
    decreases n,
{
    if n == 0 {
        assert(n * TICK_INCREASE == 0) by (nonlinear_arith)
            requires n == 0;
        assert((n / 10) * (BIG_TICK_INCREASE - TICK_INCREASE) == 0) by (nonlinear_arith)
            requires n == 0;
    } else {
        let q = n / 10;
        let r = n % 10;
        let nm1 = (n - 1) as u32;
        vstd::arithmetic::div_mod::lemma_fundamental_div_mod(n as int, 10);
        assert(n == 10 * q + r);
        if r == 0 {
            vstd::arithmetic::div_mod::lemma_fundamental_div_mod_converse_div(
                nm1 as int, 10, q - 1, 9);
            assert(nm1 / 10 == q - 1);
            vstd::arithmetic::mul::lemma_mul_is_distributive_sub_other_way(
                (BIG_TICK_INCREASE - TICK_INCREASE) as int, q as int, 1);
            assert((q - 1) * (BIG_TICK_INCREASE - TICK_INCREASE)
                == q * (BIG_TICK_INCREASE - TICK_INCREASE)
                    - (BIG_TICK_INCREASE - TICK_INCREASE));
        } else {
            vstd::arithmetic::div_mod::lemma_fundamental_div_mod_converse_div(
                nm1 as int, 10, q as int, r - 1);
            assert(nm1 / 10 == q);
        }
        vstd::arithmetic::mul::lemma_mul_is_distributive_sub_other_way(
            TICK_INCREASE as int, n as int, 1);
        assert(nm1 * TICK_INCREASE == n * TICK_INCREASE - TICK_INCREASE);
        // the rate after one eat fewer stays under the limit, so no cast
        // or cap below can clip
        assert(base + nm1 * TICK_INCREASE
            + (nm1 / 10) * (BIG_TICK_INCREASE - TICK_INCREASE) <= ACCUM_LIMIT);
        lemma_speed_progression(nm1, base);
        let prev = spec_eats(nm1 as nat, 0, base, 0);
        assert(spec_eats(n as nat, 0, base, 0) == spec_eat_step(prev.0, prev.1, 0));
        assert(spec_eat_step(prev.0, prev.1, 0).1 == (base + n * TICK_INCREASE
            + q * (BIG_TICK_INCREASE - TICK_INCREASE)) as u32);
    }
}

} // verus!
