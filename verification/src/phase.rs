//! The top-level game-phase state machine: the flow from a finished run
//! through name entry and the leaderboard back to a fresh run, driven by
//! key events handed in as plain values.

use vstd::prelude::*;
use crate::{GameState, NAME_LIMIT};
use crate::game::{Game, GameModel};
use crate::game_mode::lemma_filter_take_step;
use crate::score::Highscore;

verus! {

/// An ASCII letter or digit; only these survive into a submitted name.
/// The buffer admits ASCII alone, so on every reachable buffer these
/// classes coincide with the general alphanumeric ones.
pub open spec fn spec_is_alnum(c: char) -> bool {
    ||| '0' as int <= c as int && c as int <= '9' as int
    ||| 'a' as int <= c as int && c as int <= 'z' as int
    ||| 'A' as int <= c as int && c as int <= 'Z' as int
}

/// An ASCII letter or digit; see `spec_is_alnum`.
pub fn is_alnum(c: char) -> (r: bool)
    ensures
        r == spec_is_alnum(c),
{
    let n = c as u32;
    (('0' as u32) <= n && n <= ('9' as u32))
        || (('a' as u32) <= n && n <= ('z' as u32))
        || (('A' as u32) <= n && n <= ('Z' as u32))
}

/// Whether the name buffer accepts a received character: ASCII, and not
/// a line break (submitting is a key of its own).
pub open spec fn spec_name_char_ok(c: char) -> bool {
    (c as u32) < 128 && c != '\n' && c != '\r'
}

/// The name a buffer submits as: its alphanumeric characters, in order,
/// or "Anonymous" when none survive the stripping.
pub open spec fn spec_submitted_name(buf: Seq<char>) -> Seq<char> {
    let kept = buf.filter(|c: char| spec_is_alnum(c));
    if kept.len() == 0 {
        "Anonymous"@
    } else {
        kept
    }
}

/// The alphanumeric characters of the buffer, in order.
fn filter_name(buf: &Vec<char>) -> (r: Vec<char>)
    ensures
        r@ == buf@.filter(|c: char| spec_is_alnum(c)),
{
    let ghost pred = |c: char| spec_is_alnum(c);
    let mut r: Vec<char> = Vec::new();
    let mut i: usize = 0;
    proof {
        assert(buf@.take(0).filter(pred) =~= Seq::<char>::empty()) by {
            reveal(Seq::filter);
            assert(buf@.take(0) =~= Seq::<char>::empty());
        }
    }
    while i < buf.len()
        invariant
            i <= buf.len(),
            r@ == buf@.take(i as int).filter(pred),
            pred == (|c: char| spec_is_alnum(c)),
        decreases buf.len() - i,
    {
        let c = buf[i];
        proof {
            lemma_filter_take_step(buf@, pred, i as int);
        }
        if is_alnum(c) {
            r.push(c);
        }
        i = i + 1;
    }
    proof {
        assert(buf@.take(buf@.len() as int) =~= buf@);
    }
    r
}

/// Relies on String implementing FromIterator over char: collecting
/// characters yields the string of exactly those characters, in order.
#[verifier::external_body]
fn chars_to_string(v: &Vec<char>) -> (r: String)
    ensures
        r@ == v@,
{
    v.iter().collect()
}

impl Game {
    /// The end of a run. When the fatal-collision signal fires, the phase
    /// falls to GameOver and the board is cleared of food, segments,
    /// walls and pending wall candidates. Once in GameOver, any key
    /// advances to name entry; the result says whether the
    /// did-I-place check should now run.
    pub fn game_over(&mut self, fired: bool, any_key: bool) -> (calc: bool)
        requires
            old(self).wf(),
        ensures
            fired ==> final(self)@ == (GameModel {
                phase: GameState::GameOver,
                food: None::<crate::Position>,
                segments: Seq::empty(),
                walls: Seq::empty(),
                wall_queue: Seq::empty(),
                ..old(self)@
            }) && !calc,
            !fired && old(self).phase == GameState::GameOver && any_key
                ==> final(self)@ == (GameModel {
                    phase: GameState::EnterName,
                    ..old(self)@
                }) && calc,
            !fired && !(old(self).phase == GameState::GameOver && any_key)
                ==> final(self)@ == old(self)@ && !calc,
            final(self).wf(),
    {
        if fired {
            self.phase = GameState::GameOver;
            self.food = None;
            self.segments = Vec::new();
            self.walls = Vec::new();
            self.wall_queue = Vec::new();
            proof {
                assert(self@ =~= (GameModel {
                    phase: GameState::GameOver,
                    food: None::<crate::Position>,
                    segments: Seq::empty(),
                    walls: Seq::empty(),
                    wall_queue: Seq::empty(),
                    ..old(self)@
                }));
            }
            false
        } else if self.phase == GameState::GameOver && any_key {
            self.phase = GameState::EnterName;
            proof {
                assert(self@ =~= (GameModel { phase: GameState::EnterName, ..old(self)@ }));
            }
            true
        } else {
            false
        }
    }

    /// One key event during name entry. Submitting strips the buffer down
    /// to its alphanumeric characters (an empty result becomes
    /// "Anonymous"), pairs it with the run's score, clears the buffer and
    /// moves on to the leaderboard view, handing the entry back for the
    /// caller to send; backspace drops the last character; any other
    /// accepted character joins the buffer while room remains.
    pub fn enter_name(&mut self, enter: bool, backspace: bool, received: Option<char>)
        -> (submitted: Option<Highscore>)
        requires
            old(self).wf(),
            old(self).phase == GameState::EnterName,
        ensures
            enter ==> ({
                &&& submitted matches Some(hs) && hs.score == old(self).score
                    && hs.name@ == spec_submitted_name(old(self).name@)
                &&& final(self)@ == (GameModel {
                    name: Seq::empty(),
                    phase: GameState::ViewingLeaderboard,
                    ..old(self)@
                })
            }),
            !enter && backspace ==> submitted is None && final(self)@ == (GameModel {
                name: if old(self).name@.len() > 0 {
                    old(self).name@.drop_last()
                } else {
                    old(self).name@
                },
                ..old(self)@
            }),
            !enter && !backspace ==> submitted is None && final(self)@ == (GameModel {
                name: match received {
                    Some(c) => if spec_name_char_ok(c)
                        && old(self).name@.len() < NAME_LIMIT {
                        old(self).name@.push(c)
                    } else {
                        old(self).name@
                    },
                    None => old(self).name@,
                },
                ..old(self)@
            }),
            final(self).wf(),
    {
        if enter {
            let kept = filter_name(&self.name);
            let name_str = if kept.len() == 0 {
                "Anonymous".to_owned()
            } else {
                chars_to_string(&kept)
            };
            let hs = Highscore { name: name_str, score: self.score };
            self.name = Vec::new();
            self.phase = GameState::ViewingLeaderboard;
            proof {
                assert(self@ =~= (GameModel {
                    name: Seq::empty(),
                    phase: GameState::ViewingLeaderboard,
                    ..old(self)@
                }));
            }
            Some(hs)
        } else if backspace {
            if self.name.len() > 0 {
                self.name.pop();
            }
            proof {
                assert(self@ =~= (GameModel {
                    name: if old(self).name@.len() > 0 {
                        old(self).name@.drop_last()
                    } else {
                        old(self).name@
                    },
                    ..old(self)@
                }));
            }
            None
        } else {
            match received {
                Some(c) => {
                    let n = c as u32;
                    if n < 128 && c != '\n' && c != '\r' && self.name.len() < NAME_LIMIT {
                        self.name.push(c);
                    }
                    proof {
                        assert(self@ =~= (GameModel {
                            name: if spec_name_char_ok(c)
                                && old(self).name@.len() < NAME_LIMIT {
                                old(self).name@.push(c)
                            } else {
                                old(self).name@
                            },
                            ..old(self)@
                        }));
                    }
                }
                None => {}
            }
            None
        }
    }

    /// Any key while the leaderboard is shown moves on to awaiting reset.
    pub fn leaderboard(&mut self, any_key: bool)
        requires
            old(self).wf(),
        ensures
            old(self).phase == GameState::ViewingLeaderboard && any_key
                ==> final(self)@ == (GameModel {
                    phase: GameState::ReadyToReset,
                    ..old(self)@
                }),
            !(old(self).phase == GameState::ViewingLeaderboard && any_key)
                ==> final(self)@ == old(self)@,
            final(self).wf(),
    {
        if self.phase == GameState::ViewingLeaderboard && any_key {
            self.phase = GameState::ReadyToReset;
            proof {
                assert(self@ =~= (GameModel { phase: GameState::ReadyToReset, ..old(self)@ }));
            }
        }
    }

    /// Whether a key press while awaiting reset fires the reset.
    pub fn awaiting_reset(&self, any_key: bool) -> (reset: bool)
        ensures
            reset == (self.phase == GameState::ReadyToReset && any_key),
    {
        self.phase == GameState::ReadyToReset && any_key
    }
}

} // verus!
