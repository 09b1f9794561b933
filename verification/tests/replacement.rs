use cboard::auto_replacement::{
    auto_repl_buffer_string, clear_key_log, contains_escape_string, enable_key_listener,
    handle_auto_replacement, handle_event, initialize_auto_repl_map, initialize_key_log,
    is_candidate_key, is_sending, is_user_auto_repl_map_empty, is_valid_key_name,
    set_auto_replacement_data, set_is_sending, update_auto_replace_data, Event, EventType, KeyLog,
    Replacement,
};
use cboard::common::KeyValue;
use cboard::gate::SharedGate;
use cboard::keys::{Key, Synthetic};
use cboard::processes::set_app_active_state;
use cboard::sender::{Burst, BurstPhase};

fn rule(key: &str, value: &str) -> KeyValue {
    KeyValue { key: key.to_string(), value: value.to_string() }
}

fn gate_with(rules: Vec<KeyValue>) -> SharedGate {
    let mut gate = SharedGate::new();
    set_auto_replacement_data(&mut gate, rules);
    gate
}

fn press(key: Key, name: &str) -> Event {
    Event { name: Some(name.to_string()), event_type: EventType::KeyPress(key) }
}

fn type_keys(gate: &SharedGate, log: &mut KeyLog, keys: &[(Key, &str)]) -> Vec<Replacement> {
    let mut orders = Vec::new();
    for (key, name) in keys {
        if let Some(order) = handle_event(gate, log, press(*key, name), "en-US".to_string()) {
            orders.push(order);
        }
    }
    orders
}

fn play(gate: &mut SharedGate, order: &Replacement, reports: &[bool]) -> Vec<Synthetic> {
    let mut burst = Burst::replacement(order);
    let mut out = Vec::new();
    let mut step = 0;
    let mut last_ok = true;
    while let Some(unit) = burst.advance(gate, last_ok) {
        assert!(is_sending(gate));
        out.push(unit);
        last_ok = reports.get(step).copied().unwrap_or(true);
        step += 1;
    }
    assert_eq!(burst.phase(), BurstPhase::Finished);
    out
}

fn apply(target: &mut String, plan: &[Synthetic]) {
    for unit in plan {
        match unit {
            Synthetic::KeyPress(Key::Backspace) => {
                target.pop();
            }
            Synthetic::Text(text) => target.push_str(text),
            _ => {}
        }
    }
}

#[test]
fn typing_without_trigger_accumulates_in_order() {
    let gate = gate_with(vec![rule("<3", "x"), rule("btw", "by the way")]);
    let mut log = initialize_key_log();
    let orders = type_keys(
        &gate,
        &mut log,
        &[(Key::KeyH, "h"), (Key::KeyE, "e"), (Key::KeyY, "y"), (Key::Space, " "), (Key::Num3, "3")],
    );
    assert!(orders.is_empty());
    assert_eq!(log.len(), 5);
    assert_eq!(auto_repl_buffer_string(&log), Some("hey 3".to_string()));
    assert_eq!(log.locale(0), Some("en-US".to_string()));
    assert_eq!(log.locale(5), None);
    assert_eq!(log.event_type(4), Some(EventType::KeyPress(Key::Num3)));
    assert_eq!(log.event_type(5), None);
}

#[test]
fn single_trigger_orders_erase_and_retype() {
    let mut gate = gate_with(vec![rule("btw", "by the way"), rule("omw", "on my way")]);
    let mut log = initialize_key_log();
    let orders = type_keys(
        &gate,
        &mut log,
        &[(Key::KeyX, "x"), (Key::KeyO, "o"), (Key::KeyM, "m"), (Key::KeyW, "w")],
    );
    assert_eq!(orders, vec![Replacement { backspaces: 3, text: "on my way".to_string() }]);
    assert_eq!(log.len(), 0);
    assert_eq!(auto_repl_buffer_string(&log), None);
    let plan = play(&mut gate, &orders[0], &[]);
    assert_eq!(
        plan,
        vec![
            Synthetic::KeyPress(Key::Backspace),
            Synthetic::KeyRelease(Key::Backspace),
            Synthetic::KeyPress(Key::Backspace),
            Synthetic::KeyRelease(Key::Backspace),
            Synthetic::KeyPress(Key::Backspace),
            Synthetic::KeyRelease(Key::Backspace),
            Synthetic::Text("on my way".to_string()),
        ]
    );
}

#[test]
fn backspaces_count_characters_not_bytes() {
    let gate = gate_with(vec![rule("é!", "e")]);
    let mut log = initialize_key_log();
    let orders = type_keys(&gate, &mut log, &[(Key::KeyE, "é"), (Key::Num1, "!")]);
    assert_eq!(orders, vec![Replacement { backspaces: 2, text: "e".to_string() }]);
}

#[test]
fn refeeding_after_replacement_repeats_it() {
    let gate = gate_with(vec![rule("<3", "\u{2764}")]);
    let mut log = initialize_key_log();
    let keys = [(Key::KeyA, "a"), (Key::Comma, "<"), (Key::Num3, "3")];
    let first = type_keys(&gate, &mut log, &keys);
    assert_eq!(log.len(), 0);
    let second = type_keys(&gate, &mut log, &keys);
    assert_eq!(first.len(), 1);
    assert_eq!(first, second);
    assert_eq!(log.len(), 0);
}

#[test]
fn burst_masks_its_own_echo() {
    let mut gate = gate_with(vec![rule("ab", "ab")]);
    let mut log = initialize_key_log();
    let orders = type_keys(&gate, &mut log, &[(Key::KeyA, "a"), (Key::KeyB, "b")]);
    assert_eq!(orders.len(), 1);
    assert!(!is_sending(&gate));
    let mut burst = Burst::replacement(&orders[0]);
    assert_eq!(burst.phase(), BurstPhase::Pending);
    let mut emitted = 0;
    while let Some(unit) = burst.advance(&mut gate, true) {
        assert!(is_sending(&gate));
        assert_eq!(burst.phase(), BurstPhase::InFlight);
        emitted += 1;
        // the echo of the replacement text would complete the trigger again
        if let Synthetic::Text(_) = unit {
            let echo = type_keys(&gate, &mut log, &[(Key::KeyA, "a"), (Key::KeyB, "b")]);
            assert!(echo.is_empty());
        }
        assert_eq!(log.len(), 0);
    }
    assert_eq!(emitted, 5);
    assert!(!is_sending(&gate));
    assert_eq!(burst.phase(), BurstPhase::Finished);
    assert_eq!(burst.advance(&mut gate, true), None);
    assert!(!is_sending(&gate));
}

#[test]
fn burst_clears_flag_when_units_are_refused() {
    let mut gate = gate_with(vec![rule("ab", "xyz")]);
    let order = Replacement { backspaces: 2, text: "xyz".to_string() };
    let mut burst = Burst::replacement(&order);
    let mut out = Vec::new();
    let mut last_ok = true;
    while let Some(unit) = burst.advance(&mut gate, last_ok) {
        out.push(unit);
        last_ok = false;
    }
    assert_eq!(out.len(), 5);
    assert_eq!(out[4], Synthetic::Text("xyz".to_string()));
    assert_eq!(burst.failures(), 5);
    assert!(!is_sending(&gate));
}

#[test]
fn burst_counts_only_refused_units() {
    let mut gate = SharedGate::new();
    let order = Replacement { backspaces: 1, text: "q".to_string() };
    let plan = play(&mut gate, &order, &[true, false, true]);
    assert_eq!(plan.len(), 3);
    let mut burst = Burst::replacement(&order);
    assert!(burst.advance(&mut gate, false).is_some());
    assert_eq!(burst.failures(), 0);
    assert!(burst.advance(&mut gate, false).is_some());
    assert_eq!(burst.failures(), 1);
    assert!(burst.advance(&mut gate, true).is_some());
    assert!(burst.advance(&mut gate, true).is_none());
    assert_eq!(burst.failures(), 1);
}

#[test]
fn empty_burst_finishes_at_once() {
    let mut gate = SharedGate::new();
    set_is_sending(&mut gate, true);
    let mut burst = Burst::hotkeys(None);
    assert_eq!(burst.advance(&mut gate, true), None);
    assert_eq!(burst.phase(), BurstPhase::Finished);
    assert!(!is_sending(&gate));
}

#[test]
fn heart_scenario() {
    let mut gate = gate_with(vec![rule("<3", "\u{2764}")]);
    let mut log = initialize_key_log();
    let mut target = String::new();

    assert_eq!(handle_event(&gate, &mut log, press(Key::KeyA, "a"), String::new()), None);
    target.push('a');
    assert_eq!(handle_event(&gate, &mut log, press(Key::Comma, "<"), String::new()), None);
    target.push('<');
    assert_eq!(auto_repl_buffer_string(&log), Some("a<".to_string()));
    let order = handle_event(&gate, &mut log, press(Key::Num3, "3"), String::new());
    target.push('3');
    assert_eq!(order, Some(Replacement { backspaces: 2, text: "\u{2764}".to_string() }));
    assert_eq!(log.len(), 0);

    let plan = play(&mut gate, &order.unwrap(), &[]);
    assert_eq!(
        plan,
        vec![
            Synthetic::KeyPress(Key::Backspace),
            Synthetic::KeyRelease(Key::Backspace),
            Synthetic::KeyPress(Key::Backspace),
            Synthetic::KeyRelease(Key::Backspace),
            Synthetic::Text("\u{2764}".to_string()),
        ]
    );
    apply(&mut target, &plan);
    assert_eq!(target, "a\u{2764}");
}

#[test]
fn left_arrow_clears_buffer() {
    let gate = gate_with(vec![rule("hello", "hi")]);
    let mut log = initialize_key_log();
    type_keys(&gate, &mut log, &[(Key::KeyH, "h"), (Key::KeyE, "e"), (Key::KeyL, "l")]);
    assert_eq!(log.len(), 3);
    let arrow = Event { name: None, event_type: EventType::KeyPress(Key::LeftArrow) };
    assert_eq!(handle_event(&gate, &mut log, arrow, String::new()), None);
    assert_eq!(log.len(), 0);
    let orders = type_keys(&gate, &mut log, &[(Key::KeyL, "l"), (Key::KeyO, "o")]);
    assert!(orders.is_empty());
    assert_eq!(auto_repl_buffer_string(&log), Some("lo".to_string()));
}

#[test]
fn non_candidate_key_with_text_still_clears() {
    let gate = gate_with(vec![rule("hello", "hi")]);
    let mut log = initialize_key_log();
    type_keys(&gate, &mut log, &[(Key::KeyH, "h")]);
    assert_eq!(handle_event(&gate, &mut log, press(Key::Return, "\r"), String::new()), None);
    assert_eq!(log.len(), 0);
    type_keys(&gate, &mut log, &[(Key::KeyH, "h")]);
    assert_eq!(handle_event(&gate, &mut log, press(Key::Kp1, "1"), String::new()), None);
    assert_eq!(log.len(), 0);
    type_keys(&gate, &mut log, &[(Key::KeyH, "h")]);
    assert_eq!(handle_event(&gate, &mut log, press(Key::Unknown(7), "x"), String::new()), None);
    assert_eq!(log.len(), 0);
}

#[test]
fn events_other_than_presses_are_ignored() {
    let gate = gate_with(vec![rule("hello", "hi")]);
    let mut log = initialize_key_log();
    type_keys(&gate, &mut log, &[(Key::KeyH, "h")]);
    for event_type in [
        EventType::KeyRelease(Key::KeyH),
        EventType::KeyRelease(Key::LeftArrow),
        EventType::ButtonPress,
        EventType::ButtonRelease,
        EventType::MouseMove,
        EventType::Wheel,
    ] {
        let event = Event { name: Some("e".to_string()), event_type };
        assert_eq!(handle_event(&gate, &mut log, event, String::new()), None);
        assert_eq!(auto_repl_buffer_string(&log), Some("h".to_string()));
    }
}

#[test]
fn press_without_text_leaves_buffer() {
    let gate = gate_with(vec![rule("hello", "hi")]);
    let mut log = initialize_key_log();
    type_keys(&gate, &mut log, &[(Key::KeyH, "h")]);
    let bare = Event { name: None, event_type: EventType::KeyPress(Key::KeyE) };
    assert_eq!(handle_event(&gate, &mut log, bare, String::new()), None);
    assert_eq!(auto_repl_buffer_string(&log), Some("h".to_string()));
}

#[test]
fn text_with_control_character_is_dropped() {
    let gate = gate_with(vec![rule("hello", "hi")]);
    let mut log = initialize_key_log();
    type_keys(&gate, &mut log, &[(Key::KeyH, "h")]);
    assert_eq!(handle_event(&gate, &mut log, press(Key::KeyC, "\u{3}"), String::new()), None);
    assert_eq!(handle_event(&gate, &mut log, press(Key::KeyC, "a\u{1b}"), String::new()), None);
    assert_eq!(auto_repl_buffer_string(&log), Some("h".to_string()));
    // a control character that is whitespace passes
    assert_eq!(handle_event(&gate, &mut log, press(Key::Space, "\t"), String::new()), None);
    assert_eq!(auto_repl_buffer_string(&log), Some("h\t".to_string()));
}

#[test]
fn key_name_validity() {
    assert!(is_valid_key_name(&"a".to_string()));
    assert!(is_valid_key_name(&"".to_string()));
    assert!(is_valid_key_name(&"\u{2764}".to_string()));
    assert!(is_valid_key_name(&"a\tb!".to_string()));
    assert!(is_valid_key_name(&"\r\n".to_string()));
    assert!(!is_valid_key_name(&"\u{8}".to_string()));
    assert!(!is_valid_key_name(&"a\u{7f}".to_string()));
    assert!(!is_valid_key_name(&"\t\u{2764}".to_string()));
    assert!(contains_escape_string("a\u{1f}"));
    assert!(contains_escape_string("\u{0}"));
    assert!(contains_escape_string("\u{7f}"));
    assert!(!contains_escape_string("a b~"));
    assert!(!contains_escape_string("\u{80}"));
    assert!(!contains_escape_string(""));
}

#[test]
fn candidate_keys_are_the_listed_ones() {
    let letters = [
        Key::KeyA, Key::KeyB, Key::KeyC, Key::KeyD, Key::KeyE, Key::KeyF, Key::KeyG, Key::KeyH,
        Key::KeyI, Key::KeyJ, Key::KeyK, Key::KeyL, Key::KeyM, Key::KeyN, Key::KeyO, Key::KeyP,
        Key::KeyQ, Key::KeyR, Key::KeyS, Key::KeyT, Key::KeyU, Key::KeyV, Key::KeyW, Key::KeyX,
        Key::KeyY, Key::KeyZ,
    ];
    let others = [
        Key::LeftBracket, Key::RightBracket, Key::SemiColon, Key::Quote, Key::Comma, Key::Dot,
        Key::BackSlash, Key::Slash, Key::Space, Key::BackQuote, Key::Num0, Key::Num1, Key::Num2,
        Key::Num3, Key::Num4, Key::Num5, Key::Num6, Key::Num7, Key::Num8, Key::Num9, Key::Minus,
        Key::Equal,
    ];
    for key in letters.iter().chain(others.iter()) {
        assert!(is_candidate_key(*key), "{:?}", key);
    }
    let not = [
        Key::Alt, Key::AltGr, Key::Backspace, Key::CapsLock, Key::ControlLeft, Key::ControlRight,
        Key::Delete, Key::DownArrow, Key::End, Key::Escape, Key::F1, Key::F12, Key::Home,
        Key::LeftArrow, Key::MetaLeft, Key::MetaRight, Key::PageDown, Key::PageUp, Key::Return,
        Key::RightArrow, Key::ShiftLeft, Key::ShiftRight, Key::Tab, Key::UpArrow,
        Key::PrintScreen, Key::ScrollLock, Key::Pause, Key::NumLock, Key::IntlBackslash,
        Key::Insert, Key::KpReturn, Key::KpMinus, Key::KpPlus, Key::KpMultiply, Key::KpDivide,
        Key::Kp0, Key::Kp5, Key::Kp9, Key::KpDelete, Key::Function, Key::Unknown(0),
        Key::Unknown(65),
    ];
    for key in not {
        assert!(!is_candidate_key(key), "{:?}", key);
    }
}

#[test]
fn sending_flag_drops_events() {
    let mut gate = gate_with(vec![rule("ab", "x")]);
    let mut log = initialize_key_log();
    type_keys(&gate, &mut log, &[(Key::KeyA, "a")]);
    set_is_sending(&mut gate, true);
    assert!(is_sending(&gate));
    assert!(type_keys(&gate, &mut log, &[(Key::KeyB, "b")]).is_empty());
    let arrow = Event { name: None, event_type: EventType::KeyPress(Key::LeftArrow) };
    assert_eq!(handle_event(&gate, &mut log, arrow, String::new()), None);
    assert_eq!(auto_repl_buffer_string(&log), Some("a".to_string()));
    set_is_sending(&mut gate, false);
    assert_eq!(type_keys(&gate, &mut log, &[(Key::KeyB, "b")]).len(), 1);
}

#[test]
fn empty_rule_set_drops_events() {
    let gate = gate_with(vec![]);
    assert!(is_user_auto_repl_map_empty(&gate));
    let mut log = initialize_key_log();
    assert!(type_keys(&gate, &mut log, &[(Key::KeyA, "a")]).is_empty());
    assert_eq!(log.len(), 0);
    assert_eq!(auto_repl_buffer_string(&log), None);
}

#[test]
fn inactive_application_drops_events() {
    let mut gate = gate_with(vec![rule("ab", "x")]);
    let mut log = initialize_key_log();
    set_app_active_state(&mut gate, false);
    assert_eq!(enable_key_listener(&gate, &mut log, press(Key::KeyA, "a"), String::new()), None);
    assert_eq!(log.len(), 0);
    set_app_active_state(&mut gate, true);
    assert_eq!(enable_key_listener(&gate, &mut log, press(Key::KeyA, "a"), String::new()), None);
    assert_eq!(
        enable_key_listener(&gate, &mut log, press(Key::KeyB, "b"), String::new()),
        Some(Replacement { backspaces: 2, text: "x".to_string() })
    );
}

#[test]
fn trigger_matches_anywhere_in_buffer() {
    let gate = gate_with(vec![rule("ab", "x")]);
    let mut log = initialize_key_log();
    // the buffer reads "ba" and then "bac": the trigger is completed in the middle only
    // once "b", "a" are followed by the keys that make "ab" appear
    let orders = type_keys(
        &gate,
        &mut log,
        &[(Key::KeyB, "b"), (Key::KeyA, "a"), (Key::KeyC, "c"), (Key::KeyA, "a"), (Key::KeyB, "b")],
    );
    assert_eq!(orders, vec![Replacement { backspaces: 2, text: "x".to_string() }]);
}

#[test]
fn longest_trigger_wins() {
    let gate = gate_with(vec![rule("bc", "short"), rule("abc", "long"), rule("c", "tiny")]);
    let mut log = initialize_key_log();
    // "c" alone would fire on the third key; type up to "ab" first
    assert!(type_keys(&gate, &mut log, &[(Key::KeyA, "a"), (Key::KeyB, "b")]).is_empty());
    let orders = type_keys(&gate, &mut log, &[(Key::KeyC, "c")]);
    assert_eq!(orders, vec![Replacement { backspaces: 3, text: "long".to_string() }]);
}

#[test]
fn equal_length_triggers_earliest_rule_wins() {
    let gate = gate_with(vec![rule("xa", "first"), rule("ab", "second"), rule("ya", "third")]);
    let mut log = initialize_key_log();
    // one observation may carry several characters: "xab" holds "xa" and "ab"
    let orders = type_keys(&gate, &mut log, &[(Key::KeyX, "xab")]);
    assert_eq!(orders, vec![Replacement { backspaces: 2, text: "first".to_string() }]);
    let gate = gate_with(vec![rule("ab", "second"), rule("xa", "first")]);
    let orders = type_keys(&gate, &mut log, &[(Key::KeyX, "xab")]);
    assert_eq!(orders, vec![Replacement { backspaces: 2, text: "second".to_string() }]);
}

#[test]
fn empty_trigger_fires_on_every_appended_key() {
    let gate = gate_with(vec![rule("", "!")]);
    let mut log = initialize_key_log();
    assert_eq!(handle_auto_replacement(&gate, &mut log), None);
    let orders = type_keys(&gate, &mut log, &[(Key::KeyA, "a"), (Key::KeyB, "b")]);
    assert_eq!(
        orders,
        vec![
            Replacement { backspaces: 0, text: "!".to_string() },
            Replacement { backspaces: 0, text: "!".to_string() },
        ]
    );
    let gate = gate_with(vec![rule("", "!"), rule("b", "B")]);
    let orders = type_keys(&gate, &mut log, &[(Key::KeyB, "b")]);
    assert_eq!(orders, vec![Replacement { backspaces: 1, text: "B".to_string() }]);
}

#[test]
fn engine_leaves_unmatched_buffer() {
    let gate = gate_with(vec![rule("zz", "x")]);
    let mut log = initialize_key_log();
    type_keys(&gate, &mut log, &[(Key::KeyA, "a")]);
    assert_eq!(handle_auto_replacement(&gate, &mut log), None);
    assert_eq!(auto_repl_buffer_string(&log), Some("a".to_string()));
    clear_key_log(&mut log);
    assert_eq!(log.len(), 0);
    assert_eq!(KeyLog::default().len(), 0);
}

#[test]
fn fresh_gate_has_sample_rule() {
    let gate = initialize_auto_repl_map();
    assert!(!is_sending(&gate));
    assert!(!is_user_auto_repl_map_empty(&gate));
    assert_eq!(gate.rules().len(), 1);
    assert_eq!(gate.rules().get("<3"), Some("\u{2764}\u{fe0f}".to_string()));
    let mut log = initialize_key_log();
    let orders = type_keys(&gate, &mut log, &[(Key::Comma, "<"), (Key::Num3, "3")]);
    assert_eq!(orders, vec![Replacement { backspaces: 2, text: "\u{2764}\u{fe0f}".to_string() }]);
}

#[test]
fn loading_rules_replaces_and_deduplicates() {
    let gate = gate_with(vec![rule("a", "1"), rule("b", "2"), rule("a", "3")]);
    assert_eq!(gate.rules().len(), 2);
    assert_eq!(gate.rules().rule(0), Some(rule("a", "3")));
    assert_eq!(gate.rules().rule(1), Some(rule("b", "2")));
    assert_eq!(gate.rules().rule(2), None);
    assert_eq!(gate.rules().get("a"), Some("3".to_string()));
    assert_eq!(gate.rules().get("<3"), None);
    assert_eq!(gate.rules().position("b"), Some(1));
    assert_eq!(gate.rules().position("c"), None);
}

#[test]
fn reload_swaps_or_asks_for_rewrite() {
    let mut gate = SharedGate::new();
    let rewrite = update_auto_replace_data(&mut gate, None);
    assert_eq!(rewrite, Some(vec![rule("<3", "\u{2764}\u{fe0f}")]));
    assert_eq!(gate.rules().len(), 1);
    let rewrite = update_auto_replace_data(&mut gate, Some(vec![rule("x", "y"), rule("z", "w")]));
    assert_eq!(rewrite, None);
    assert_eq!(gate.rules().len(), 2);
    assert_eq!(gate.rules().get("<3"), None);
    assert_eq!(gate.rules().get("z"), Some("w".to_string()));
    set_is_sending(&mut gate, true);
    update_auto_replace_data(&mut gate, Some(vec![]));
    assert!(is_sending(&gate));
    assert!(is_user_auto_repl_map_empty(&gate));
}
