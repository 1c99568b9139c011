//! The relationship record: stats, the in-game clock, and the pure
//! arithmetic that governs daily gain caps and clock rollover.

use vstd::prelude::*;
use vstd::arithmetic::div_mod::lemma_fundamental_div_mod_converse;

verus! {

/// Day used for a restored record that predates the `day` field.
pub fn default_day() -> (d: u32)
    ensures
        d == 1,
{
    1
}

/// The single persistent record of the simulation: relationship stats,
/// the in-game clock, and the per-day gain counters.
#[derive(Debug, Clone)]
pub struct GameState {
    pub affection: i32,
    pub trust: i32,
    pub name: String,
    pub last_action: String,
    pub time_of_day: String,
    pub hour: u32,
    pub minute: u32,
    pub day: u32,
    pub actions_taken: u32,
    pub daily_affection: i32,
    pub daily_trust: i32,
    pub last_dialogue: String,
}

/// The phase of the day is a pure function of the hour: morning covers
/// hours 6 to 11, afternoon 12 to 17, and night everything else.
pub open spec fn time_of_day_for(hour: int) -> Seq<char> {
    if 6 <= hour && hour < 12 {
        "morning"@
    } else if 12 <= hour && hour < 18 {
        "afternoon"@
    } else {
        "night"@
    }
}

/// A well-formed record: the clock fields are in range, the daily gain
/// counters respect their caps, and the stored phase matches the hour.
pub open spec fn wf(s: GameState) -> bool {
    &&& s.hour < 24
    &&& s.minute < 60
    &&& 0 <= s.daily_affection <= 10
    &&& 0 <= s.daily_trust <= 5
    &&& s.time_of_day@ == time_of_day_for(s.hour as int)
}

/// A freshly created record, before any persisted copy is restored.
pub open spec fn is_initial(s: GameState) -> bool {
    &&& s.affection == 0
    &&& s.trust == 0
    &&& s.name@ == "Sylvie"@
    &&& s.last_action@ == "none"@
    &&& s.time_of_day@ == "morning"@
    &&& s.hour == 8
    &&& s.minute == 0
    &&& s.day == 1
    &&& s.actions_taken == 0
    &&& s.daily_affection == 0
    &&& s.daily_trust == 0
    &&& s.last_dialogue@ == "..."@
}

impl Default for GameState {
    fn default() -> (s: Self)
        ensures
            is_initial(s),
            wf(s),
    {
        GameState {
            affection: 0,
            trust: 0,
            name: String::from_str("Sylvie"),
            last_action: String::from_str("none"),
            time_of_day: String::from_str("morning"),
            hour: 8,
            minute: 0,
            day: 1,
            actions_taken: 0,
            daily_affection: 0,
            daily_trust: 0,
            last_dialogue: String::from_str("..."),
        }
    }
}

impl GameState {
    /// Rebuild a record from the fields of a persisted copy. Every field is
    /// restored verbatim; a copy saved before the `day` field existed has no
    /// day, and such a record starts over at day 1.
    pub fn from_saved(
        affection: i32,
        trust: i32,
        name: String,
        last_action: String,
        time_of_day: String,
        hour: u32,
        minute: u32,
        day: Option<u32>,
        actions_taken: u32,
        daily_affection: i32,
        daily_trust: i32,
        last_dialogue: String,
    ) -> (s: GameState)
        ensures
            s.affection == affection,
            s.trust == trust,
            s.name == name,
            s.last_action == last_action,
            s.time_of_day == time_of_day,
            s.hour == hour,
            s.minute == minute,
            s.day == (match day {
                Some(d) => d,
                None => 1u32,
            }),
            s.actions_taken == actions_taken,
            s.daily_affection == daily_affection,
            s.daily_trust == daily_trust,
            s.last_dialogue == last_dialogue,
    {
        let day_value: u32 = match day {
            Some(d) => d,
            None => default_day(),
        };
        GameState {
            affection,
            trust,
            name,
            last_action,
            time_of_day,
            hour,
            minute,
            day: day_value,
            actions_taken,
            daily_affection,
            daily_trust,
            last_dialogue,
        }
    }
}

/// A stat gain clipped to the day's remaining headroom: the nominal gain
/// is granted only up to `cap - used`, and a used counter at or past the
/// cap yields no gain at all.
pub open spec fn clipped_gain(nominal: int, used: int, cap: int) -> int {
    if used < cap {
        if cap - used < nominal {
            cap - used
        } else {
            nominal
        }
    } else {
        0
    }
}

/// Affection gained by one action, given the affection already gained
/// today: patting is worth 2, a treat tops up by as much as 5, talking
/// is worth 1, and an unrecognized action gains nothing. Every gain is
/// clipped to the daily cap of 10.
pub open spec fn affection_gain(action: Seq<char>, used: int) -> int {
    if action == "pat_head"@ {
        clipped_gain(2, used, 10)
    } else if action == "give_treat"@ {
        clipped_gain(5, used, 10)
    } else if action == "talk"@ {
        clipped_gain(1, used, 10)
    } else {
        0
    }
}

/// Trust gained by one action, given the trust already gained today:
/// patting is worth 1 and a treat tops up by as much as 2, both clipped
/// to the daily cap of 5. Talking and unrecognized actions gain nothing.
pub open spec fn trust_gain(action: Seq<char>, used: int) -> int {
    if action == "pat_head"@ {
        clipped_gain(1, used, 5)
    } else if action == "give_treat"@ {
        clipped_gain(2, used, 5)
    } else {
        0
    }
}

/// The minute count to distribute when `minutes` are added to the clock.
pub open spec fn minutes_total(s: GameState, minutes: u32) -> int {
    s.minute + minutes
}

/// The hour the clock reaches once whole hours are carried out of the
/// minute field, before any day rollover.
pub open spec fn hour_carried(s: GameState, minutes: u32) -> int {
    s.hour + minutes_total(s, minutes) / 60
}

/// Whether adding `minutes` carries the clock past hour 24.
pub open spec fn rolls_over(s: GameState, minutes: u32) -> bool {
    hour_carried(s, minutes) >= 24
}

/// The hour after the clock advances: a day boundary always resets the
/// visible hour to 8, modelling waking up, so the clock never needs a
/// second wrap within one advance.
pub open spec fn hour_after(s: GameState, minutes: u32) -> int {
    if rolls_over(s, minutes) {
        8
    } else {
        hour_carried(s, minutes)
    }
}

/// The day after the clock advances: exactly one more than before when
/// the clock crossed hour 24, unchanged otherwise.
pub open spec fn day_after(s: GameState, minutes: u32) -> int {
    if rolls_over(s, minutes) {
        s.day + 1
    } else {
        s.day as int
    }
}

/// Law: one interaction's fixed 120-minute cost crosses at most one day
/// boundary. From a clock in range, the day advances by exactly 1 when
/// the accumulated minutes reach a multiple of 1440 from the day's
/// start, and the hour is then reset to exactly 8; otherwise the day is
/// unchanged and the clock simply moves two hours on.
pub proof fn lemma_interaction_day_step(s: GameState)
    requires
        s.hour < 24,
        s.minute < 60,
    ensures
        60 * s.hour + s.minute + 120 >= 1440 ==> day_after(s, 120) == s.day + 1 && hour_after(
            s,
            120,
        ) == 8,
        60 * s.hour + s.minute + 120 < 1440 ==> day_after(s, 120) == s.day && hour_after(s, 120)
            == s.hour + 2,
        minutes_total(s, 120) % 60 == s.minute,
{
    lemma_fundamental_div_mod_converse(s.minute + 120, 60, 2, s.minute as int);
}

} // verus!
