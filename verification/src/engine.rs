//! The interaction engine: applies one named action to the record,
//! enforcing the daily gain caps, advances the in-game clock, and selects
//! a dialogue line. The surrounding application owns the single record
//! and persists it around these calls.

use vstd::prelude::*;
use vstd::arithmetic::div_mod::lemma_div_is_ordered;
use vstd::arithmetic::div_mod::lemma_div_multiples_vanish;
use vstd::arithmetic::div_mod::lemma_fundamental_div_mod_converse;
use crate::state::GameState;
use crate::state::day_after;
use crate::state::hour_after;
use crate::state::hour_carried;
use crate::state::minutes_total;
use crate::state::rolls_over;
use crate::state::time_of_day_for;
use crate::state::is_initial;
use crate::state::wf;
use crate::state::affection_gain;
use crate::state::trust_gain;
use crate::dialogue::DialogueTable;
use crate::dialogue::dialogue_choice;
use crate::dialogue::dialogue_ok;
use crate::dialogue::dialogue_pool;
use crate::dialogue::extend_lines;
use crate::dialogue::find_action;
use crate::dialogue::is_empty_table;
use crate::dialogue::str_eq;
use crate::dialogue::treat_lines;

verus! {

/// Relies on rand::random_range: returns a uniformly random value in the
/// given range; the call panics on an empty range, so the bound must be
/// positive.
#[verifier::external_body]
fn pick_index(n: usize) -> (r: usize)
    requires
        n > 0,
    ensures
        r < n,
{
    rand::random_range(0..n)
}

/// The engine: the single mutable record and the read-only dialogue
/// table it selects lines from.
pub struct Engine {
    pub state: GameState,
    pub dialogues: DialogueTable,
}

impl Engine {
    /// A fresh engine: the default record and an empty dialogue table.
    /// The surrounding application restores a persisted record and loads
    /// the dialogue resource into these fields before play begins.
    pub fn new() -> (e: Engine)
        ensures
            is_initial(e.state),
            is_empty_table(e.dialogues),
    {
        Engine { state: GameState::default(), dialogues: DialogueTable::empty() }
    }

    /// Recompute the stored phase of the day from the current hour.
    pub fn update_time_of_day(&mut self)
        ensures
            final(self).state.time_of_day@ == time_of_day_for(old(self).state.hour as int),
            final(self).state == (GameState {
                time_of_day: final(self).state.time_of_day,
                ..old(self).state
            }),
            final(self).dialogues == old(self).dialogues,
    {
        let hour = self.state.hour;
        self.state.time_of_day = if hour >= 6 && hour < 12 {
            String::from_str("morning")
        } else if hour >= 12 && hour < 18 {
            String::from_str("afternoon")
        } else {
            String::from_str("night")
        };
    }

    /// Advance the clock by the given minutes. Whole hours are carried
    /// out of the minute field; a clock carried past hour 24 starts the
    /// next day at 08:00 and resets the daily gain counters. The phase
    /// of the day is recomputed from the final hour.
    pub fn advance_time(&mut self, minutes: u32)
        requires
            minutes_total(old(self).state, minutes) <= u32::MAX,
            hour_carried(old(self).state, minutes) <= u32::MAX,
            old(self).state.day < u32::MAX,
        ensures
            final(self).state.minute == minutes_total(old(self).state, minutes) % 60,
            final(self).state.hour == hour_after(old(self).state, minutes),
            final(self).state.day == day_after(old(self).state, minutes),
            final(self).state.daily_affection == (if rolls_over(old(self).state, minutes) {
                0int
            } else {
                old(self).state.daily_affection as int
            }),
            final(self).state.daily_trust == (if rolls_over(old(self).state, minutes) {
                0int
            } else {
                old(self).state.daily_trust as int
            }),
            final(self).state.time_of_day@ == time_of_day_for(final(self).state.hour as int),
            final(self).state.hour < 24,
            final(self).state.minute < 60,
            wf(old(self).state) ==> wf(final(self).state),
            final(self).state.affection == old(self).state.affection,
            final(self).state.trust == old(self).state.trust,
            final(self).state.name == old(self).state.name,
            final(self).state.last_action == old(self).state.last_action,
            final(self).state.actions_taken == old(self).state.actions_taken,
            final(self).state.last_dialogue == old(self).state.last_dialogue,
            final(self).dialogues == old(self).dialogues,
    {
        let ghost total: int = minutes_total(old(self).state, minutes);
        let ghost hour0: int = old(self).state.hour as int;

        self.state.minute = self.state.minute + minutes;
        while self.state.minute >= 60
            invariant
                total == minutes_total(old(self).state, minutes),
                hour0 == old(self).state.hour,
                hour0 + total / 60 <= u32::MAX,
                self.state.minute + 60 * (self.state.hour - hour0) == total,
                self.state.hour >= hour0,
                self.dialogues == old(self).dialogues,
                self.state == (GameState {
                    minute: self.state.minute,
                    hour: self.state.hour,
                    ..old(self).state
                }),
            decreases self.state.minute,
        {
            proof {
                // One more whole hour still fits under the carried bound.
                let k: int = self.state.hour - hour0 + 1;
                assert(60 * k <= total);
                lemma_div_is_ordered(60 * k, total, 60);
                lemma_div_multiples_vanish(k, 60);
                assert(k <= total / 60);
            }
            self.state.minute = self.state.minute - 60;
            self.state.hour = self.state.hour + 1;
        }
        proof {
            lemma_fundamental_div_mod_converse(
                total,
                60,
                self.state.hour - hour0,
                self.state.minute as int,
            );
        }

        if self.state.hour >= 24 {
            // A day boundary always lands at 08:00, so the clock never
            // needs a second wrap within one advance.
            self.state.hour = 8;
            self.state.day = self.state.day + 1;
            self.state.daily_affection = 0;
            self.state.daily_trust = 0;
        }

        self.update_time_of_day();
    }

    /// Assemble the candidate pool for the given action against the
    /// current record: the mood tier, the lines of the stored phase of
    /// the day, and the action's sub-tier.
    fn build_pool(&self, action: &str) -> (pool: Vec<String>)
        ensures
            pool@ == dialogue_pool(
                self.dialogues,
                self.state.affection as int,
                self.state.trust as int,
                self.state.time_of_day@,
                action@,
            ),
    {
        let mut pool: Vec<String> = Vec::new();
        if self.state.affection < 20 || self.state.trust < 10 {
            extend_lines(&mut pool, &self.dialogues.distrust);
        } else if self.state.affection < 60 || self.state.trust < 30 {
            extend_lines(&mut pool, &self.dialogues.neutral);
        } else {
            extend_lines(&mut pool, &self.dialogues.trust);
        }
        let tod = self.state.time_of_day.as_str();
        if str_eq(tod, "morning") {
            extend_lines(&mut pool, &self.dialogues.morning);
        } else if str_eq(tod, "afternoon") {
            extend_lines(&mut pool, &self.dialogues.afternoon);
        } else if str_eq(tod, "night") {
            extend_lines(&mut pool, &self.dialogues.night);
        }
        match find_action(&self.dialogues.actions, action) {
            Some(i) => {
                let entry = &self.dialogues.actions[i];
                if self.state.affection >= 40 {
                    extend_lines(&mut pool, &entry.high);
                } else {
                    extend_lines(&mut pool, &entry.low);
                }
            },
            None => {},
        }
        proof {
            assert(pool@ =~= dialogue_pool(
                self.dialogues,
                self.state.affection as int,
                self.state.trust as int,
                self.state.time_of_day@,
                action@,
            ));
        }
        pool
    }

    /// The dialogue selection with the random draw made explicit: `k` is
    /// the number chance would have supplied, and the selected line is a
    /// pure function of the record, the table, the override and `k`.
    pub fn dialogue_at(&self, action_override: Option<&str>, k: usize) -> (r: String)
        ensures
            r@ == dialogue_choice(
                self.dialogues,
                self.state.affection as int,
                self.state.trust as int,
                self.state.time_of_day@,
                action_override,
                self.state.last_action@,
                k as int,
            ),
    {
        if let Some(a) = action_override {
            if str_eq(a, "give_treat") {
                match find_action(&self.dialogues.actions, a) {
                    Some(i) => {
                        let entry = &self.dialogues.actions[i];
                        let lines = if self.state.affection >= 40 {
                            &entry.high
                        } else {
                            &entry.low
                        };
                        if lines.len() > 0 {
                            let j = k % lines.len();
                            return lines[j].clone();
                        }
                    },
                    None => {},
                }
            }
        }
        let action: &str = match action_override {
            Some(a) => a,
            None => self.state.last_action.as_str(),
        };
        let pool = self.build_pool(action);
        if pool.len() == 0 {
            String::from_str("...")
        } else {
            let j = k % pool.len();
            pool[j].clone()
        }
    }

    /// Select one dialogue line by layered lookup and a uniformly random
    /// pick. Giving a treat with a non-empty treat sub-tier returns a
    /// line from exactly that sub-tier; otherwise the pick is uniform
    /// over the accumulated pool, and an empty pool yields the sentinel.
    pub fn get_random_dialogue(&self, action_override: Option<&str>) -> (r: String)
        ensures
            dialogue_ok(
                self.dialogues,
                self.state.affection as int,
                self.state.trust as int,
                self.state.time_of_day@,
                action_override,
                self.state.last_action@,
                r@,
            ),
    {
        if let Some(a) = action_override {
            if str_eq(a, "give_treat") {
                match find_action(&self.dialogues.actions, a) {
                    Some(i) => {
                        let entry = &self.dialogues.actions[i];
                        let lines = if self.state.affection >= 40 {
                            &entry.high
                        } else {
                            &entry.low
                        };
                        if lines.len() > 0 {
                            let j = pick_index(lines.len());
                            let picked = lines[j].clone();
                            proof {
                                let tl = treat_lines(self.dialogues, self.state.affection as int);
                                assert(0 <= j < tl.len() && picked@ == tl[j as int]@);
                            }
                            return picked;
                        }
                    },
                    None => {},
                }
            }
        }
        let action: &str = match action_override {
            Some(a) => a,
            None => self.state.last_action.as_str(),
        };
        let pool = self.build_pool(action);
        if pool.len() == 0 {
            String::from_str("...")
        } else {
            let j = pick_index(pool.len());
            let picked = pool[j].clone();
            proof {
                assert(0 <= j < pool@.len() && picked@ == pool@[j as int]@);
            }
            picked
        }
    }

    /// Apply one named action: grant its stat gains clipped to the daily
    /// caps, record it as the last action, advance the clock by the
    /// uniform cost of 120 minutes, and then select a dialogue line, so
    /// the selection sees the phase of the day the clock has just
    /// reached. Gains are granted against the daily counters as they
    /// stood before the call; a day rollover caused by the same action
    /// resets the counters only after the gain, so an action that
    /// crosses midnight still pays in. An unrecognized action changes no
    /// stat but still consumes time and selects a line.
    pub fn interact(&mut self, action: &str)
        requires
            old(self).state.affection + 5 <= i32::MAX,
            old(self).state.trust + 2 <= i32::MAX,
            old(self).state.daily_affection + 5 <= i32::MAX,
            old(self).state.daily_trust + 2 <= i32::MAX,
            10 - old(self).state.daily_affection <= i32::MAX,
            5 - old(self).state.daily_trust <= i32::MAX,
            old(self).state.minute + 120 <= u32::MAX,
            old(self).state.hour + (old(self).state.minute + 120) / 60 <= u32::MAX,
            old(self).state.day < u32::MAX,
            old(self).state.actions_taken < u32::MAX,
        ensures
            final(self).state.affection == old(self).state.affection + affection_gain(
                action@,
                old(self).state.daily_affection as int,
            ),
            final(self).state.trust == old(self).state.trust + trust_gain(
                action@,
                old(self).state.daily_trust as int,
            ),
            final(self).state.last_action@ == action@,
            final(self).state.actions_taken == old(self).state.actions_taken + 1,
            final(self).state.name == old(self).state.name,
            final(self).state.minute == minutes_total(old(self).state, 120) % 60,
            final(self).state.hour == hour_after(old(self).state, 120),
            final(self).state.day == day_after(old(self).state, 120),
            final(self).state.daily_affection == (if rolls_over(old(self).state, 120) {
                0int
            } else {
                old(self).state.daily_affection + affection_gain(
                    action@,
                    old(self).state.daily_affection as int,
                )
            }),
            final(self).state.daily_trust == (if rolls_over(old(self).state, 120) {
                0int
            } else {
                old(self).state.daily_trust + trust_gain(
                    action@,
                    old(self).state.daily_trust as int,
                )
            }),
            final(self).state.time_of_day@ == time_of_day_for(final(self).state.hour as int),
            final(self).state.hour < 24,
            final(self).state.minute < 60,
            0 <= old(self).state.daily_affection <= 10 ==> 0 <= final(self).state.daily_affection
                <= 10,
            0 <= old(self).state.daily_trust <= 5 ==> 0 <= final(self).state.daily_trust <= 5,
            wf(old(self).state) ==> wf(final(self).state),
            dialogue_ok(
                old(self).dialogues,
                old(self).state.affection + affection_gain(
                    action@,
                    old(self).state.daily_affection as int,
                ),
                old(self).state.trust + trust_gain(action@, old(self).state.daily_trust as int),
                time_of_day_for(hour_after(old(self).state, 120)),
                Some(action),
                action@,
                final(self).state.last_dialogue@,
            ),
            final(self).dialogues == old(self).dialogues,
    {
        if str_eq(action, "pat_head") {
            if self.state.daily_affection < 10 {
                let mut g: i32 = 2;
                let headroom = 10 - self.state.daily_affection;
                if headroom < g {
                    g = headroom;
                }
                self.state.affection = self.state.affection + g;
                self.state.daily_affection = self.state.daily_affection + g;
            }
            if self.state.daily_trust < 5 {
                let mut g: i32 = 1;
                let headroom = 5 - self.state.daily_trust;
                if headroom < g {
                    g = headroom;
                }
                self.state.trust = self.state.trust + g;
                self.state.daily_trust = self.state.daily_trust + g;
            }
        } else if str_eq(action, "give_treat") {
            if self.state.daily_affection < 10 {
                let mut g: i32 = 5;
                let headroom = 10 - self.state.daily_affection;
                if headroom < g {
                    g = headroom;
                }
                self.state.affection = self.state.affection + g;
                self.state.daily_affection = self.state.daily_affection + g;
            }
            if self.state.daily_trust < 5 {
                let mut g: i32 = 2;
                let headroom = 5 - self.state.daily_trust;
                if headroom < g {
                    g = headroom;
                }
                self.state.trust = self.state.trust + g;
                self.state.daily_trust = self.state.daily_trust + g;
            }
        } else if str_eq(action, "talk") {
            // Talking grants a little affection and no trust.
            if self.state.daily_affection < 10 {
                let mut g: i32 = 1;
                let headroom = 10 - self.state.daily_affection;
                if headroom < g {
                    g = headroom;
                }
                self.state.affection = self.state.affection + g;
                self.state.daily_affection = self.state.daily_affection + g;
            }
        }

        self.state.last_action = action.to_owned();
        self.state.actions_taken = self.state.actions_taken + 1;

        // Every action consumes the same two in-game hours, and the
        // line is selected only once the clock has moved, against the
        // phase of the day it has just reached.
        self.advance_time(120);
        self.state.last_dialogue = self.get_random_dialogue(Some(action));
    }
}

} // verus!
