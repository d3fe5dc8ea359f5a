//! Food placement: uniformly random grid cells, with a mild bias away
//! from the outermost ring, regenerated while the candidate overlaps the
//! snake, and a deterministic fallback scan that guards against an
//! unbounded retry loop.

use vstd::prelude::*;
use crate::{Position, WALL};
use crate::game::{Game, GameModel};
use crate::snake::contains_pos;

verus! {

/// Most random attempts before placement falls back to scanning for the
/// first free cell.
pub const FOOD_RETRY_LIMIT: u32 = 100;

/// One random grid cell. A cell on the outermost ring has a one-in-ten
/// chance per attempt of being discarded and drawn again — a mild bias
/// away from edge spawns — with a bounded number of such re-draws.
pub fn generate_food_coords() -> (r: Position)
    ensures
        r.spec_in_bounds(),
{
    let mut attempts: u32 = 0;
    while attempts < FOOD_RETRY_LIMIT
        decreases FOOD_RETRY_LIMIT - attempts,
    {
        let rx: u32 = rand::random::<u32>();
        let ry: u32 = rand::random::<u32>();
        let p = Position { x: (rx % (WALL as u32)) as i32, y: (ry % (WALL as u32)) as i32 };
        if p.on_edge() {
            let roll: u32 = rand::random::<u32>();
            if roll % 10 == 0 {
                attempts = attempts + 1;
                continue;
            }
        }
        return p;
    }
    // accept an edge cell rather than retry forever
    let rx: u32 = rand::random::<u32>();
    let ry: u32 = rand::random::<u32>();
    Position { x: (rx % (WALL as u32)) as i32, y: (ry % (WALL as u32)) as i32 }
}

impl Game {
    /// Place the food on a cell no snake segment occupies. Random cells
    /// are drawn and discarded while they overlap the snake; after
    /// `FOOD_RETRY_LIMIT` misses the first free cell in scanning order is
    /// taken instead, so the call terminates on any board that is not
    /// saturated. Nothing but the food changes.
    pub fn food_spawner(&mut self)
        requires
            old(self).wf(),
            exists|p: Position| p.spec_in_bounds() && !old(self).segments@.contains(p),
        ensures
            final(self)@ == (GameModel { food: final(self)@.food, ..old(self)@ }),
            final(self)@.food matches Some(p) && p.spec_in_bounds()
                && !old(self).segments@.contains(p),
            final(self).wf(),
    {
        let mut attempts: u32 = 0;
        while attempts < FOOD_RETRY_LIMIT
            invariant
                old(self).wf(),
                self@ == old(self)@,
            decreases FOOD_RETRY_LIMIT - attempts,
        {
            let c = generate_food_coords();
            if !contains_pos(&self.segments, c) {
                self.food = Some(c);
                proof {
                    assert(self@ =~= (GameModel { food: Some(c), ..old(self)@ }));
                }
                return;
            }
            attempts = attempts + 1;
        }
        let mut y: i32 = 0;
        while y < WALL
            invariant
                0 <= y <= WALL,
                old(self).wf(),
                self@ == old(self)@,
                forall|p: Position| p.spec_in_bounds() && p.y < y
                    ==> #[trigger] old(self).segments@.contains(p),
            decreases WALL - y,
        {
            let mut x: i32 = 0;
            while x < WALL
                invariant
                    0 <= x <= WALL,
                    0 <= y < WALL,
                    old(self).wf(),
                    self@ == old(self)@,
                    forall|p: Position| p.spec_in_bounds()
                        && (p.y < y || (p.y == y && p.x < x))
                        ==> #[trigger] old(self).segments@.contains(p),
                decreases WALL - x,
            {
                let c = Position { x, y };
                if !contains_pos(&self.segments, c) {
                    self.food = Some(c);
                    proof {
                        assert(self@ =~= (GameModel { food: Some(c), ..old(self)@ }));
                    }
                    return;
                }
                x = x + 1;
            }
            y = y + 1;
        }
        // the scan covered the grid, so a free cell would have been found;
        // the requirement that one exists rules this out
        proof {
            let w = choose|p: Position|
                p.spec_in_bounds() && !old(self).segments@.contains(p);
            assert(old(self).segments@.contains(w));
            assert(false);
        }
        vstd::pervasive::unreached()
    }
}

} // verus!
