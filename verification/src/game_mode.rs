//! Game rules chosen at menu time, constant during a run, and the
//! deferred wall-spawning queue of the walled game mode.

use vstd::prelude::*;
use crate::{GameState, Position};
use crate::game::{Game, GameModel};
use crate::snake::contains_pos;

verus! {

/// Configuration switch selected at menu time: whether crossing the grid
/// boundary is fatal, and whether eaten cells later grow walls.
#[derive(Clone, Copy, PartialEq, Eq, Structural, Debug)]
pub struct GameRules {
    pub do_collide_walls: bool,
    pub do_spawn_walls: bool,
}

impl Default for GameRules {
    /// The classic mode: borderless grid, no walls.
    fn default() -> (r: GameRules)
        ensures
            r == (GameRules { do_collide_walls: false, do_spawn_walls: false }),
    {
        GameRules { do_collide_walls: false, do_spawn_walls: false }
    }
}

/// The queued wall candidates that are not covered by a snake segment;
/// these materialize as walls, in queue order.
pub open spec fn spec_spawnable(queue: Seq<Position>, segments: Seq<Position>) -> Seq<Position> {
    queue.filter(|p: Position| !segments.contains(p))
}

/// The queued wall candidates still covered by a snake segment; these
/// stay queued, in order, and are retried on a later pass.
pub open spec fn spec_retained(queue: Seq<Position>, segments: Seq<Position>) -> Seq<Position> {
    queue.filter(|p: Position| segments.contains(p))
}

/// One step of `Seq::filter` along a prefix, used by loops that build a
/// filtered sequence front to back.
pub proof fn lemma_filter_take_step<A>(s: Seq<A>, pred: spec_fn(A) -> bool, i: int)
    requires
        0 <= i < s.len(),
    ensures
        s.take(i + 1).filter(pred) == if pred(s[i]) {
            s.take(i).filter(pred).push(s[i])
        } else {
            s.take(i).filter(pred)
        },
    decreases i,
{
    reveal(Seq::filter);
    assert(s.take(i + 1).drop_last() =~= s.take(i));
    assert(s.take(i + 1).last() == s[i]);
}

/// Split a wall queue against the current segment positions: the entries
/// not covered by a segment are appended to `walls`, the covered ones are
/// kept queued. Returns `(new_walls, new_queue)`.
pub fn split_wall_queue(walls: &Vec<Position>, queue: &Vec<Position>, segments: &Vec<Position>)
    -> (r: (Vec<Position>, Vec<Position>))
    ensures
        r.0@ == walls@ + spec_spawnable(queue@, segments@),
        r.1@ == spec_retained(queue@, segments@),
        forall|j: int| 0 <= j < r.0@.len()
            ==> walls@.contains(#[trigger] r.0@[j]) || queue@.contains(r.0@[j]),
        forall|j: int| 0 <= j < r.1@.len() ==> queue@.contains(#[trigger] r.1@[j]),
{
    let ghost spawn_pred = |p: Position| !segments@.contains(p);
    let ghost keep_pred = |p: Position| segments@.contains(p);
    let mut new_walls = crate::snake::snapshot(walls);
    let mut new_queue: Vec<Position> = Vec::new();
    let mut i: usize = 0;
    proof {
        assert(queue@.take(0).filter(spawn_pred) =~= Seq::<Position>::empty()) by {
            reveal(Seq::filter);
            assert(queue@.take(0) =~= Seq::<Position>::empty());
        }
        assert(queue@.take(0).filter(keep_pred) =~= Seq::<Position>::empty()) by {
            reveal(Seq::filter);
            assert(queue@.take(0) =~= Seq::<Position>::empty());
        }
        assert forall|j: int| 0 <= j < new_walls@.len()
            implies walls@.contains(#[trigger] new_walls@[j]) by {
            assert(walls@[j] == new_walls@[j]);
        }
    }
    while i < queue.len()
        invariant
            i <= queue.len(),
            new_walls@ == walls@ + queue@.take(i as int).filter(spawn_pred),
            new_queue@ == queue@.take(i as int).filter(keep_pred),
            forall|j: int| 0 <= j < new_walls@.len()
                ==> walls@.contains(#[trigger] new_walls@[j]) || queue@.contains(new_walls@[j]),
            forall|j: int| 0 <= j < new_queue@.len()
                ==> queue@.contains(#[trigger] new_queue@[j]),
            spawn_pred == (|p: Position| !segments@.contains(p)),
            keep_pred == (|p: Position| segments@.contains(p)),
        decreases queue.len() - i,
    {
        let p = queue[i];
        proof {
            lemma_filter_take_step(queue@, spawn_pred, i as int);
            lemma_filter_take_step(queue@, keep_pred, i as int);
            assert(queue@[i as int] == p);
            assert(queue@.contains(p));
        }
        if contains_pos(segments, p) {
            new_queue.push(p);
        } else {
            new_walls.push(p);
        }
        i = i + 1;
    }
    proof {
        assert(queue@.take(queue@.len() as int) =~= queue@);
    }
    (new_walls, new_queue)
}

impl Game {
    /// Adopt the rules chosen at the menu; they stay constant for the run.
    pub fn game_rule_changer(&mut self, rules: GameRules)
        ensures
            final(self)@ == (GameModel { rules, ..old(self)@ }),
            old(self).wf() ==> final(self).wf(),
    {
        self.rules = rules;
        proof {
            assert(self@ =~= (GameModel { rules, ..old(self)@ }));
        }
    }

    /// Wall enqueueing after an eat, in the wall-spawning mode: the eaten
    /// cell, where the head now sits, becomes a deferred wall candidate.
    /// The executable counterpart of `spec_enqueue_phase`.
    pub fn enqueue_walls(&mut self, ate: bool)
        requires
            old(self).wf(),
            old(self).phase == GameState::Playing,
        ensures
            final(self)@ == crate::game::spec_enqueue_phase(old(self)@, ate),
            final(self).wf(),
    {
        if ate && self.rules.do_spawn_walls {
            let head = self.segments[0];
            self.wall_queue.push(head);
            proof {
                assert(self@ =~= crate::game::spec_enqueue_phase(old(self)@, ate));
            }
        }
    }

    /// Materialize every queued wall candidate whose cell the snake has
    /// vacated, in queue order; candidates still covered stay queued and
    /// are retried on a later pass.
    pub fn try_spawn_walls(&mut self)
        requires
            old(self).wf(),
        ensures
            final(self)@ == (GameModel {
                walls: old(self).walls@
                    + spec_spawnable(old(self).wall_queue@, old(self).segments@),
                wall_queue: spec_retained(old(self).wall_queue@, old(self).segments@),
                ..old(self)@
            }),
            final(self).wf(),
    {
        let (new_walls, new_queue) = split_wall_queue(&self.walls, &self.wall_queue, &self.segments);
        self.walls = new_walls;
        self.wall_queue = new_queue;
        proof {
            assert forall|j: int| 0 <= j < self.walls@.len()
                implies (#[trigger] self.walls@[j]).spec_in_bounds() by {
                let x = self.walls@[j];
                assert(old(self).walls@.contains(x) || old(self).wall_queue@.contains(x));
                if old(self).walls@.contains(x) {
                    let k = choose|k: int|
                        0 <= k < old(self).walls@.len() && old(self).walls@[k] == x;
                    assert(0 <= k < old(self).walls@.len() && old(self).walls@[k] == x);
                    assert(old(self)@.walls == old(self).walls@);
                    assert(old(self)@.walls[k].spec_in_bounds());
                } else {
                    let k = choose|k: int|
                        0 <= k < old(self).wall_queue@.len() && old(self).wall_queue@[k] == x;
                    assert(0 <= k < old(self).wall_queue@.len() && old(self).wall_queue@[k] == x);
                    assert(old(self)@.wall_queue[k].spec_in_bounds());
                }
            }
            assert forall|j: int| 0 <= j < self.wall_queue@.len()
                implies (#[trigger] self.wall_queue@[j]).spec_in_bounds() by {
                let x = self.wall_queue@[j];
                let k = choose|k: int|
                    0 <= k < old(self).wall_queue@.len() && old(self).wall_queue@[k] == x;
                assert(0 <= k < old(self).wall_queue@.len() && old(self).wall_queue@[k] == x);
                assert(old(self)@.wall_queue[k].spec_in_bounds());
            }
            assert(self@ =~= (GameModel {
                walls: old(self).walls@
                    + spec_spawnable(old(self).wall_queue@, old(self).segments@),
                wall_queue: spec_retained(old(self).wall_queue@, old(self).segments@),
                ..old(self)@
            }));
        }
    }
}

} // verus!
