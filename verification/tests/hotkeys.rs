use cboard::hotkeys_listener::{
    all_among, contains_key, handle_hotkeys, hotkey_listener, listen, parse_keycodes, run,
    same_keys, set_hotkey_listener, split_keycodes, Callback, HotkeyPoller, Hotkeys,
    HotkeysListener, PollStep, RunStep,
};
use cboard::hotkeys_reader::{
    format_keycodes, hotkey_reader_on, hotkeys_listen, hotkeys_reader, hotkeys_unlisten,
    set_hotkey_reader_on, HotkeysReader, ReaderStep,
};
use cboard::keys::Keycode;

fn fired(step: PollStep) -> Vec<Callback> {
    match step {
        PollStep::Continue(callbacks) => callbacks,
        PollStep::Exit => panic!("the poller stopped"),
    }
}

#[test]
fn superset_fires_both_subset_fires_one() {
    let mut listener = HotkeysListener::new();
    listener.subscribe(Hotkeys::new(vec![Keycode::A, Keycode::B]), Callback::ShowWindow);
    listener.subscribe(Hotkeys::new(vec![Keycode::A]), Callback::CopyToClipboard);
    assert_eq!(listener.len(), 2);
    assert_eq!(
        listener.pressed(&vec![Keycode::A, Keycode::B]),
        vec![Callback::ShowWindow, Callback::CopyToClipboard]
    );
    assert_eq!(
        listener.pressed(&vec![Keycode::B, Keycode::A]),
        vec![Callback::ShowWindow, Callback::CopyToClipboard]
    );
    assert_eq!(listener.pressed(&vec![Keycode::A]), vec![Callback::CopyToClipboard]);
    assert_eq!(listener.pressed(&vec![Keycode::B]), vec![]);
    assert_eq!(listener.pressed(&vec![]), vec![]);
    assert_eq!(
        listener.pressed(&vec![Keycode::LShift, Keycode::B, Keycode::Z, Keycode::A]),
        vec![Callback::ShowWindow, Callback::CopyToClipboard]
    );
}

#[test]
fn combination_is_pressed_when_all_its_keys_are_down() {
    let combo = Hotkeys::new(vec![Keycode::LControl, Keycode::Key1]);
    assert!(combo.is_pressed(&vec![Keycode::LControl, Keycode::Key1]));
    assert!(combo.is_pressed(&vec![Keycode::Key1, Keycode::A, Keycode::LControl]));
    assert!(!combo.is_pressed(&vec![Keycode::LControl]));
    assert!(!combo.is_pressed(&vec![]));
    assert!(Hotkeys::new(vec![]).is_pressed(&vec![]));
    assert!(Hotkeys::new(vec![]).is_pressed(&vec![Keycode::A]));
    assert!(combo.same_combo(&Hotkeys::new(vec![Keycode::Key1, Keycode::LControl, Keycode::Key1])));
    assert!(!combo.same_combo(&Hotkeys::new(vec![Keycode::Key1])));
    assert!(combo.clone().same_combo(&combo));
    assert!(contains_key(&vec![Keycode::A, Keycode::B], Keycode::B));
    assert!(!contains_key(&vec![Keycode::A, Keycode::B], Keycode::C));
    assert!(all_among(&vec![], &vec![]));
    assert!(same_keys(&vec![Keycode::A, Keycode::B, Keycode::A], &vec![Keycode::B, Keycode::A]));
    assert!(!same_keys(&vec![Keycode::A], &vec![Keycode::B, Keycode::A]));
}

#[test]
fn resubscribing_replaces_the_callback_in_place() {
    let mut listener = HotkeysListener::default();
    listener.subscribe(Hotkeys::new(vec![Keycode::A, Keycode::B]), Callback::ShowWindow);
    listener.subscribe(Hotkeys::new(vec![Keycode::C]), Callback::ShowWindow);
    listener.subscribe(Hotkeys::new(vec![Keycode::B, Keycode::A]), Callback::CopyToClipboard);
    assert_eq!(listener.len(), 2);
    assert_eq!(
        listener.pressed(&vec![Keycode::A, Keycode::B, Keycode::C]),
        vec![Callback::CopyToClipboard, Callback::ShowWindow]
    );
    listener.unsubscribe(Hotkeys::new(vec![Keycode::D]));
    assert_eq!(listener.len(), 2);
    listener.unsubscribe(Hotkeys::new(vec![Keycode::A, Keycode::B]));
    assert_eq!(listener.len(), 1);
    assert_eq!(listener.pressed(&vec![Keycode::A, Keycode::B, Keycode::C]), vec![Callback::ShowWindow]);
    listener.clear();
    assert_eq!(listener.len(), 0);
    assert_eq!(listener.pressed(&vec![Keycode::C]), vec![]);
}

#[test]
fn settings_install_show_and_copy() {
    let mut listener = HotkeysListener::new();
    handle_hotkeys(&mut listener, Ok(vec![Keycode::LControl, Keycode::Key1]));
    assert_eq!(listener.len(), 2);
    assert_eq!(listener.pressed(&vec![Keycode::LControl, Keycode::Key1]), vec![Callback::ShowWindow]);
    assert_eq!(listener.pressed(&vec![Keycode::C, Keycode::LControl]), vec![Callback::CopyToClipboard]);

    let mut listener = HotkeysListener::new();
    handle_hotkeys(&mut listener, Err("failed to parse keycode".to_string()));
    assert_eq!(listener.len(), 1);
    assert_eq!(listener.pressed(&vec![Keycode::C, Keycode::LControl]), vec![Callback::CopyToClipboard]);

    // a show combination equal to the copy combination gives way to it
    let mut listener = HotkeysListener::new();
    handle_hotkeys(&mut listener, Ok(vec![Keycode::C, Keycode::LControl]));
    assert_eq!(listener.len(), 1);
    assert_eq!(listener.pressed(&vec![Keycode::C, Keycode::LControl]), vec![Callback::CopyToClipboard]);
}

#[test]
fn names_are_split_at_commas() {
    assert_eq!(split_keycodes("LControl,Key1"), vec!["LControl".to_string(), "Key1".to_string()]);
    assert_eq!(split_keycodes("A"), vec!["A".to_string()]);
    assert_eq!(split_keycodes(""), vec![String::new()]);
    assert_eq!(split_keycodes(","), vec![String::new(), String::new()]);
    assert_eq!(split_keycodes("A,,B,"), vec!["A".to_string(), String::new(), "B".to_string(), String::new()]);
    assert_eq!(split_keycodes(" A, \u{e9}"), vec![" A".to_string(), " \u{e9}".to_string()]);
    for input in ["", ",", "a,b", ",x,", "LControl,Key1", "\u{2764},,\u{e9}"] {
        let std: Vec<String> = input.split(',').map(|s| s.to_string()).collect();
        assert_eq!(split_keycodes(input), std);
        assert_eq!(format_keycodes(&split_keycodes(input)), input);
    }
}

#[test]
fn first_refusal_wins() {
    assert_eq!(parse_keycodes(vec![]), Ok(vec![]));
    assert_eq!(
        parse_keycodes(vec![Ok(Keycode::LControl), Ok(Keycode::Key1)]),
        Ok(vec![Keycode::LControl, Keycode::Key1])
    );
    assert_eq!(
        parse_keycodes(vec![Ok(Keycode::A), Err("first".to_string()), Ok(Keycode::B), Err("second".to_string())]),
        Err("first".to_string())
    );
    assert_eq!(parse_keycodes(vec![Err("only".to_string())]), Err("only".to_string()));
}

#[test]
fn poller_fires_on_change_to_a_reading_with_keys() {
    let mut poller = HotkeyPoller::new();
    assert!(!hotkey_listener(&poller));
    assert!(!poller.alive());
    assert_eq!(run(&mut poller, Ok(vec![Keycode::LControl, Keycode::Key1])), RunStep::Started);
    assert!(hotkey_listener(&poller));
    assert!(poller.alive());
    assert_eq!(poller.listener().len(), 2);

    assert_eq!(fired(listen(&mut poller, vec![])), vec![]);
    assert_eq!(fired(listen(&mut poller, vec![Keycode::LControl])), vec![]);
    assert_eq!(
        fired(listen(&mut poller, vec![Keycode::LControl, Keycode::Key1])),
        vec![Callback::ShowWindow]
    );
    // held: the same keys do not fire again, in whatever order they are read
    assert_eq!(fired(listen(&mut poller, vec![Keycode::LControl, Keycode::Key1])), vec![]);
    assert_eq!(fired(listen(&mut poller, vec![Keycode::Key1, Keycode::LControl])), vec![]);
    // released and pressed again: the reading before was empty
    assert_eq!(fired(listen(&mut poller, vec![])), vec![]);
    assert_eq!(
        fired(listen(&mut poller, vec![Keycode::LControl, Keycode::Key1])),
        vec![Callback::ShowWindow]
    );
    assert_eq!(
        fired(listen(&mut poller, vec![Keycode::LControl, Keycode::Key1, Keycode::C])),
        vec![Callback::ShowWindow, Callback::CopyToClipboard]
    );
}

#[test]
fn poller_restart_handshake() {
    let mut poller = HotkeyPoller::new();
    assert_eq!(run(&mut poller, Err("bad".to_string())), RunStep::Started);
    assert_eq!(poller.listener().len(), 1);
    // restart while running: asked to stop, nothing rebuilt yet
    assert_eq!(run(&mut poller, Ok(vec![Keycode::F1])), RunStep::Wait);
    assert!(!hotkey_listener(&poller));
    assert!(poller.alive());
    assert_eq!(poller.listener().len(), 1);
    // still waiting
    assert_eq!(run(&mut poller, Ok(vec![Keycode::F1])), RunStep::Wait);
    assert_eq!(poller.listener().len(), 1);
    // the thread acknowledges on its next step, and reads nothing
    assert_eq!(listen(&mut poller, vec![Keycode::LControl, Keycode::C]), PollStep::Exit);
    assert!(!poller.alive());
    assert_eq!(poller.listener().len(), 1);
    // now the restart goes through
    assert_eq!(run(&mut poller, Ok(vec![Keycode::F1])), RunStep::Started);
    assert!(hotkey_listener(&poller));
    assert!(poller.alive());
    assert_eq!(poller.listener().len(), 2);
    assert_eq!(fired(listen(&mut poller, vec![Keycode::F1])), vec![Callback::ShowWindow]);
}

#[test]
fn poller_flag_can_be_set_directly() {
    let mut poller = HotkeyPoller::new();
    run(&mut poller, Ok(vec![Keycode::F1]));
    set_hotkey_listener(&mut poller, false);
    assert!(!hotkey_listener(&poller));
    assert_eq!(listen(&mut poller, vec![Keycode::F1]), PollStep::Exit);
    assert!(!poller.alive());
    set_hotkey_listener(&mut poller, true);
    assert!(hotkey_listener(&poller));
}

#[test]
fn reader_announces_changes() {
    let mut reader = HotkeysReader::new();
    assert!(hotkey_reader_on(&reader));
    assert_eq!(hotkeys_reader(&mut reader, vec![]), ReaderStep::Continue { announce: false });
    assert_eq!(hotkeys_reader(&mut reader, vec![Keycode::A]), ReaderStep::Continue { announce: true });
    assert_eq!(hotkeys_reader(&mut reader, vec![Keycode::A]), ReaderStep::Continue { announce: false });
    assert_eq!(
        hotkeys_reader(&mut reader, vec![Keycode::A, Keycode::B]),
        ReaderStep::Continue { announce: true }
    );
    assert_eq!(
        hotkeys_reader(&mut reader, vec![Keycode::B, Keycode::A]),
        ReaderStep::Continue { announce: true }
    );
    assert_eq!(hotkeys_reader(&mut reader, vec![]), ReaderStep::Continue { announce: false });
    assert_eq!(hotkeys_reader(&mut reader, vec![Keycode::B]), ReaderStep::Continue { announce: true });
    hotkeys_unlisten(&mut reader);
    assert!(!hotkey_reader_on(&reader));
    assert_eq!(hotkeys_reader(&mut reader, vec![Keycode::C]), ReaderStep::Stop(vec![Keycode::B]));
    hotkeys_listen(&mut reader);
    assert!(hotkey_reader_on(&reader));
    assert_eq!(hotkeys_reader(&mut reader, vec![Keycode::B]), ReaderStep::Continue { announce: true });
    set_hotkey_reader_on(&mut reader, false);
    assert_eq!(hotkeys_reader(&mut reader, vec![]), ReaderStep::Stop(vec![Keycode::B]));
}

#[test]
fn names_are_joined_with_commas() {
    assert_eq!(format_keycodes(&vec![]), "");
    assert_eq!(format_keycodes(&vec!["LControl".to_string()]), "LControl");
    assert_eq!(format_keycodes(&vec!["LControl".to_string(), "Key1".to_string()]), "LControl,Key1");
    assert_eq!(format_keycodes(&vec![String::new(), String::new()]), ",");
}
