use sylvie::dialogue::ActionDialogues;
use sylvie::dialogue::DialogueTable;
use sylvie::engine::Engine;
use sylvie::state::GameState;

fn lines(items: &[&str]) -> Vec<String> {
    items.iter().map(|s| s.to_string()).collect()
}

fn table_with(
    distrust: &[&str],
    neutral: &[&str],
    trust: &[&str],
    morning: &[&str],
    afternoon: &[&str],
    night: &[&str],
    actions: Vec<ActionDialogues>,
) -> DialogueTable {
    DialogueTable {
        distrust: lines(distrust),
        neutral: lines(neutral),
        trust: lines(trust),
        morning: lines(morning),
        afternoon: lines(afternoon),
        night: lines(night),
        actions,
    }
}

#[test]
fn test_time_progression() {
    let mut engine = Engine::new();
    engine.state.hour = 22;
    engine.state.minute = 0;
    engine.state.day = 1;

    // One action takes 2 hours (120 min): 22:00 + 2h crosses midnight and
    // the next day starts at 8:00.
    engine.interact("talk");
    assert_eq!(engine.state.day, 2);
    assert_eq!(engine.state.hour, 8);
    assert_eq!(engine.state.minute, 0);
}

#[test]
fn test_daily_limits() {
    let mut engine = Engine::new();

    // Six actions starting at 8:00 reach 20:00 without a day change.
    for _ in 0..6 {
        engine.interact("pat_head");
    }
    assert_eq!(engine.state.daily_affection, 10); // 6 * 2 = 12, capped at 10
    assert_eq!(engine.state.affection, 10);
    assert_eq!(engine.state.daily_trust, 5); // 6 * 1 = 6, capped at 5
    assert_eq!(engine.state.hour, 20);
}

#[test]
fn test_time_of_day_update() {
    let mut engine = Engine::new();

    engine.state.hour = 5;
    engine.update_time_of_day();
    assert_eq!(engine.state.time_of_day, "night");

    engine.state.hour = 8;
    engine.update_time_of_day();
    assert_eq!(engine.state.time_of_day, "morning");

    engine.state.hour = 14;
    engine.update_time_of_day();
    assert_eq!(engine.state.time_of_day, "afternoon");

    engine.state.hour = 20;
    engine.update_time_of_day();
    assert_eq!(engine.state.time_of_day, "night");
}

#[test]
fn talk_from_default_state() {
    let mut engine = Engine::new();
    engine.interact("talk");
    assert_eq!(engine.state.affection, 1);
    assert_eq!(engine.state.daily_affection, 1);
    assert_eq!(engine.state.trust, 0);
    assert_eq!(engine.state.daily_trust, 0);
    assert_eq!(engine.state.hour, 10);
    assert_eq!(engine.state.minute, 0);
    assert_eq!(engine.state.day, 1);
    assert_eq!(engine.state.last_action, "talk");
    assert_eq!(engine.state.actions_taken, 1);
}

#[test]
fn rollover_resets_dailies_after_gain() {
    // The gain is granted against the old day's counters, and the
    // rollover caused by the same action then resets the counters: the
    // talk's affection point survives in the total but not in the daily
    // counter.
    let mut engine = Engine::new();
    engine.state.hour = 22;
    engine.state.minute = 0;
    engine.state.day = 1;
    engine.interact("talk");
    assert_eq!(engine.state.affection, 1);
    assert_eq!(engine.state.daily_affection, 0);
    assert_eq!(engine.state.daily_trust, 0);
    assert_eq!(engine.state.day, 2);
    assert_eq!(engine.state.hour, 8);
}

#[test]
fn give_treat_tops_up_to_cap() {
    let mut engine = Engine::new();
    engine.interact("give_treat");
    assert_eq!(engine.state.affection, 5);
    assert_eq!(engine.state.daily_affection, 5);
    assert_eq!(engine.state.trust, 2);
    assert_eq!(engine.state.daily_trust, 2);

    engine.interact("give_treat");
    assert_eq!(engine.state.affection, 10);
    assert_eq!(engine.state.daily_affection, 10);
    assert_eq!(engine.state.trust, 4);
    assert_eq!(engine.state.daily_trust, 4);

    engine.interact("give_treat");
    assert_eq!(engine.state.affection, 10);
    assert_eq!(engine.state.trust, 5);
    assert_eq!(engine.state.daily_trust, 5);
}

#[test]
fn unrecognized_action_consumes_time_only() {
    let mut engine = Engine::new();
    engine.interact("dance");
    assert_eq!(engine.state.affection, 0);
    assert_eq!(engine.state.trust, 0);
    assert_eq!(engine.state.daily_affection, 0);
    assert_eq!(engine.state.daily_trust, 0);
    assert_eq!(engine.state.hour, 10);
    assert_eq!(engine.state.last_action, "dance");
    assert_eq!(engine.state.last_dialogue, "...");
}

#[test]
fn empty_table_yields_sentinel() {
    let engine = Engine::new();
    assert_eq!(engine.get_random_dialogue(None), "...");
    assert_eq!(engine.get_random_dialogue(Some("talk")), "...");
    assert_eq!(engine.dialogue_at(Some("give_treat"), 3), "...");
}

#[test]
fn single_line_pool_returns_that_line() {
    let mut engine = Engine::new();
    engine.dialogues = table_with(&["who are you?"], &[], &[], &[], &[], &[], Vec::new());
    assert_eq!(engine.get_random_dialogue(None), "who are you?");
}

#[test]
fn treat_lines_pre_empt_the_pool() {
    let mut engine = Engine::new();
    let actions = vec![ActionDialogues {
        name: "give_treat".to_string(),
        low: lines(&["a cookie!", "crunch"]),
        high: lines(&["my favourite!"]),
    }];
    engine.dialogues = table_with(
        &["mood line"],
        &[],
        &[],
        &["morning line"],
        &[],
        &[],
        actions,
    );
    for _ in 0..20 {
        let line = engine.get_random_dialogue(Some("give_treat"));
        assert!(line == "a cookie!" || line == "crunch");
    }
    // At high affection the high sub-tier pre-empts instead.
    engine.state.affection = 40;
    assert_eq!(engine.get_random_dialogue(Some("give_treat")), "my favourite!");
}

#[test]
fn dialogue_at_walks_the_pool_deterministically() {
    let mut engine = Engine::new();
    engine.dialogues = table_with(
        &["d0", "d1"],
        &[],
        &[],
        &["m0"],
        &[],
        &[],
        Vec::new(),
    );
    // Default record: distrust mood, morning phase, no entry for "none".
    assert_eq!(engine.dialogue_at(None, 0), "d0");
    assert_eq!(engine.dialogue_at(None, 1), "d1");
    assert_eq!(engine.dialogue_at(None, 2), "m0");
    assert_eq!(engine.dialogue_at(None, 3), "d0");
}

#[test]
fn dialogue_follows_the_clock_across_a_phase_boundary() {
    // Selection happens after the clock advance: an action taken in the
    // morning that lands in the afternoon speaks with afternoon lines.
    let mut engine = Engine::new();
    engine.state.hour = 10;
    engine.update_time_of_day();
    engine.dialogues = table_with(
        &[],
        &[],
        &[],
        &["buenos días"],
        &["buenas tardes"],
        &[],
        Vec::new(),
    );
    engine.interact("talk");
    assert_eq!(engine.state.hour, 12);
    assert_eq!(engine.state.time_of_day, "afternoon");
    assert_eq!(engine.state.last_dialogue, "buenas tardes");
}

#[test]
fn dialogue_after_midnight_uses_the_morning_phase() {
    // An action at 22:00 crosses midnight and wakes at 8:00, so the
    // selected line belongs to the new morning, not the old night.
    let mut engine = Engine::new();
    engine.state.hour = 22;
    engine.update_time_of_day();
    engine.dialogues = table_with(
        &[],
        &[],
        &[],
        &["buenos días"],
        &[],
        &["buenas noches"],
        Vec::new(),
    );
    engine.interact("talk");
    assert_eq!(engine.state.day, 2);
    assert_eq!(engine.state.hour, 8);
    assert_eq!(engine.state.last_dialogue, "buenos días");
}

#[test]
fn mood_tiers_are_exclusive() {
    let mut engine = Engine::new();
    engine.dialogues = table_with(
        &["wary"],
        &["fine"],
        &["beloved"],
        &[],
        &[],
        &[],
        Vec::new(),
    );
    engine.state.time_of_day = "noon?".to_string(); // unknown phase adds nothing

    engine.state.affection = 19;
    engine.state.trust = 50;
    assert_eq!(engine.get_random_dialogue(None), "wary");

    engine.state.affection = 25;
    engine.state.trust = 15;
    assert_eq!(engine.get_random_dialogue(None), "fine");

    engine.state.affection = 60;
    engine.state.trust = 30;
    assert_eq!(engine.get_random_dialogue(None), "beloved");
}

#[test]
fn action_tier_follows_affection() {
    let mut engine = Engine::new();
    let actions = vec![ActionDialogues {
        name: "talk".to_string(),
        low: lines(&["hm."]),
        high: lines(&["tell me more!"]),
    }];
    engine.dialogues = table_with(&[], &[], &[], &[], &[], &[], actions);
    engine.state.time_of_day = "noon?".to_string();

    engine.state.affection = 39;
    assert_eq!(engine.get_random_dialogue(Some("talk")), "hm.");
    engine.state.affection = 40;
    assert_eq!(engine.get_random_dialogue(Some("talk")), "tell me more!");
}

#[test]
fn restored_record_without_day_starts_at_day_one() {
    let s = GameState::from_saved(
        3,
        2,
        "Sylvie".to_string(),
        "talk".to_string(),
        "night".to_string(),
        20,
        30,
        None,
        7,
        3,
        2,
        "hello".to_string(),
    );
    assert_eq!(s.day, 1);
    assert_eq!(s.affection, 3);
    assert_eq!(s.hour, 20);
    assert_eq!(s.minute, 30);

    let s2 = GameState::from_saved(
        0,
        0,
        "Sylvie".to_string(),
        "none".to_string(),
        "morning".to_string(),
        8,
        0,
        Some(5),
        0,
        0,
        0,
        "...".to_string(),
    );
    assert_eq!(s2.day, 5);
}

#[test]
fn default_record_is_initial() {
    let s = GameState::default();
    assert_eq!(s.affection, 0);
    assert_eq!(s.trust, 0);
    assert_eq!(s.name, "Sylvie");
    assert_eq!(s.last_action, "none");
    assert_eq!(s.time_of_day, "morning");
    assert_eq!(s.hour, 8);
    assert_eq!(s.minute, 0);
    assert_eq!(s.day, 1);
    assert_eq!(s.daily_affection, 0);
    assert_eq!(s.daily_trust, 0);
    assert_eq!(s.last_dialogue, "...");
    assert_eq!(sylvie::state::default_day(), 1);
}
