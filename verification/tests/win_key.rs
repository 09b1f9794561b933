use cboard::auto_replacement::{Event, EventType};
use cboard::gate::SharedGate;
use cboard::keys::{Key, Keycode, Synthetic};
use cboard::processes::{set_app_active_state, set_is_fg_window_fullscreen};
use cboard::settings::{
    get_settings_instance, set_settings, update_settings, Settings, WinKeySetting,
    DEFAULT_MAX_CLIPBOARD_ITEMS,
};
use cboard::win_key::watch_win_key;
use cboard::win_key_hook::{
    hook_callback, win_key_policy, HookAnswer, HookVerdict, WinKeyPolicy, HC_ACTION, VK_LWIN,
    VK_RWIN, WM_KEYDOWN, WM_SYSKEYDOWN,
};

fn gate(active: bool, fullscreen: bool) -> SharedGate {
    let mut gate = SharedGate::new();
    set_app_active_state(&mut gate, active);
    set_is_fg_window_fullscreen(&mut gate, fullscreen);
    gate
}

fn allow() -> HookAnswer {
    HookAnswer { verdict: HookVerdict::Allow, dispatch: vec![] }
}

fn suppress(dispatch: Vec<Synthetic>) -> HookAnswer {
    HookAnswer { verdict: HookVerdict::Suppress, dispatch }
}

#[test]
fn meta_key_in_fullscreen() {
    let policy = WinKeyPolicy::DisableInFullscreen;
    let full = gate(true, true);
    assert_eq!(hook_callback(HC_ACTION, WM_KEYDOWN, VK_LWIN, &full, &policy), suppress(vec![]));
    assert_eq!(hook_callback(HC_ACTION, WM_SYSKEYDOWN, VK_RWIN, &full, &policy), suppress(vec![]));
    let windowed = gate(true, false);
    assert_eq!(hook_callback(HC_ACTION, WM_KEYDOWN, VK_LWIN, &windowed, &policy), allow());
    assert_eq!(hook_callback(HC_ACTION, WM_KEYDOWN, VK_RWIN, &windowed, &policy), allow());
}

#[test]
fn inactive_application_always_allows() {
    let policies = [
        WinKeyPolicy::Normal,
        WinKeyPolicy::DisableInFullscreen,
        WinKeyPolicy::RedirectToHotkey(vec![Keycode::LControl, Keycode::Escape]),
        WinKeyPolicy::TypeText("hi".to_string()),
    ];
    for policy in policies.iter() {
        for fullscreen in [false, true] {
            let g = gate(false, fullscreen);
            assert_eq!(hook_callback(HC_ACTION, WM_KEYDOWN, VK_LWIN, &g, policy), allow());
        }
    }
}

#[test]
fn normal_policy_allows() {
    for fullscreen in [false, true] {
        let g = gate(true, fullscreen);
        assert_eq!(hook_callback(HC_ACTION, WM_KEYDOWN, VK_LWIN, &g, &WinKeyPolicy::Normal), allow());
    }
}

#[test]
fn redirect_plays_the_translated_chord() {
    let policy = WinKeyPolicy::RedirectToHotkey(vec![Keycode::LControl, Keycode::F13, Keycode::Escape]);
    for fullscreen in [false, true] {
        let g = gate(true, fullscreen);
        assert_eq!(
            hook_callback(HC_ACTION, WM_KEYDOWN, VK_LWIN, &g, &policy),
            suppress(vec![
                Synthetic::KeyPress(Key::ControlLeft),
                Synthetic::KeyPress(Key::Escape),
                Synthetic::KeyRelease(Key::ControlLeft),
                Synthetic::KeyRelease(Key::Escape),
            ])
        );
    }
    let g = gate(true, false);
    let empty = WinKeyPolicy::RedirectToHotkey(vec![]);
    assert_eq!(hook_callback(HC_ACTION, WM_KEYDOWN, VK_LWIN, &g, &empty), suppress(vec![]));
}

#[test]
fn type_text_sends_the_text() {
    let policy = WinKeyPolicy::TypeText("\u{2764} hi".to_string());
    let g = gate(true, false);
    assert_eq!(
        hook_callback(HC_ACTION, WM_SYSKEYDOWN, VK_RWIN, &g, &policy),
        suppress(vec![Synthetic::Text("\u{2764} hi".to_string())])
    );
}

#[test]
fn other_events_are_chained() {
    let policy = WinKeyPolicy::TypeText("x".to_string());
    let g = gate(true, true);
    // another key
    assert_eq!(hook_callback(HC_ACTION, WM_KEYDOWN, 0x41, &g, &policy), allow());
    assert_eq!(hook_callback(HC_ACTION, WM_KEYDOWN, 0x5D, &g, &policy), allow());
    // the meta key going up
    assert_eq!(hook_callback(HC_ACTION, 0x0101, VK_LWIN, &g, &policy), allow());
    assert_eq!(hook_callback(HC_ACTION, 0x0105, VK_LWIN, &g, &policy), allow());
    // a code that asks not to process
    assert_eq!(hook_callback(-1, WM_KEYDOWN, VK_LWIN, &g, &policy), allow());
    assert_eq!(hook_callback(3, WM_KEYDOWN, VK_LWIN, &g, &policy), allow());
}

#[test]
fn hook_constants() {
    assert_eq!(HC_ACTION, 0);
    assert_eq!(VK_LWIN, 0x5B);
    assert_eq!(VK_RWIN, 0x5C);
    assert_eq!(WM_KEYDOWN, 0x100);
    assert_eq!(WM_SYSKEYDOWN, 0x104);
}

#[test]
fn policy_from_settings() {
    let mut settings = get_settings_instance();
    settings.win_key_text = "typed".to_string();
    let keys = vec![Keycode::LControl, Keycode::Escape];
    assert_eq!(win_key_policy(&settings, Ok(keys.clone())), WinKeyPolicy::Normal);
    settings.win_key = WinKeySetting::DisableInFullscreen;
    assert_eq!(win_key_policy(&settings, Ok(keys.clone())), WinKeyPolicy::DisableInFullscreen);
    settings.win_key = WinKeySetting::Hotkey;
    assert_eq!(win_key_policy(&settings, Ok(keys.clone())), WinKeyPolicy::RedirectToHotkey(keys.clone()));
    assert_eq!(
        win_key_policy(&settings, Err("failed to parse keycode".to_string())),
        WinKeyPolicy::RedirectToHotkey(vec![])
    );
    settings.win_key = WinKeySetting::Text;
    assert_eq!(win_key_policy(&settings, Ok(keys)), WinKeyPolicy::TypeText("typed".to_string()));
}

#[test]
fn grabbing_listener_swallows_left_meta_in_fullscreen() {
    let press = |key| Event { name: None, event_type: EventType::KeyPress(key) };
    assert_eq!(watch_win_key(&gate(true, true), press(Key::MetaLeft)), None);
    assert_eq!(watch_win_key(&gate(true, false), press(Key::MetaLeft)), Some(press(Key::MetaLeft)));
    assert_eq!(watch_win_key(&gate(false, true), press(Key::MetaLeft)), Some(press(Key::MetaLeft)));
    assert_eq!(watch_win_key(&gate(true, true), press(Key::MetaRight)), Some(press(Key::MetaRight)));
    let release = Event { name: None, event_type: EventType::KeyRelease(Key::MetaLeft) };
    assert_eq!(
        watch_win_key(&gate(true, true), release),
        Some(Event { name: None, event_type: EventType::KeyRelease(Key::MetaLeft) })
    );
    let named = Event { name: Some("a".to_string()), event_type: EventType::KeyPress(Key::KeyA) };
    assert_eq!(
        watch_win_key(&gate(true, true), named),
        Some(Event { name: Some("a".to_string()), event_type: EventType::KeyPress(Key::KeyA) })
    );
}

#[test]
fn win_key_setting_numbers() {
    assert_eq!(WinKeySetting::try_from(0), Ok(WinKeySetting::Normal));
    assert_eq!(WinKeySetting::try_from(1), Ok(WinKeySetting::DisableInFullscreen));
    assert_eq!(WinKeySetting::try_from(2), Ok(WinKeySetting::Hotkey));
    assert_eq!(WinKeySetting::try_from(3), Ok(WinKeySetting::Text));
    for bad in [-128i8, -1, 4, 5, 127] {
        assert_eq!(WinKeySetting::try_from(bad), Err("Invalid value for WinKeySetting"));
    }
    for setting in [
        WinKeySetting::Normal,
        WinKeySetting::DisableInFullscreen,
        WinKeySetting::Hotkey,
        WinKeySetting::Text,
    ] {
        assert_eq!(WinKeySetting::try_from(setting.to_number()), Ok(setting));
    }
}

#[test]
fn default_settings() {
    let settings = get_settings_instance();
    assert_eq!(DEFAULT_MAX_CLIPBOARD_ITEMS, 150);
    assert_eq!(
        settings,
        Settings {
            clipboard_max_count: 150,
            autorun: false,
            win_key: WinKeySetting::Normal,
            win_key_hotkey: String::new(),
            win_key_text: String::new(),
            show_app_hotkey: "LControl,Key1".to_string(),
        }
    );
}

#[test]
fn settings_reload() {
    let mut current = get_settings_instance();
    let kept = set_settings(&mut current, None);
    assert_eq!(kept, get_settings_instance());
    let update = update_settings(&mut current, None);
    assert!(update.rewrite);
    assert_eq!(update.settings, get_settings_instance());

    let mut loaded = get_settings_instance();
    loaded.autorun = true;
    loaded.win_key = WinKeySetting::Text;
    loaded.win_key_text = "x".to_string();
    let update = update_settings(&mut current, Some(loaded.clone()));
    assert!(!update.rewrite);
    assert_eq!(update.settings, loaded);
    assert_eq!(current, loaded);
    let mut other = get_settings_instance();
    other.clipboard_max_count = 7;
    assert_eq!(set_settings(&mut current, Some(other.clone())), other);
    assert_eq!(current, other);
}

#[test]
fn fresh_flags() {
    let g = SharedGate::new();
    assert!(g.app_active());
    assert!(g.fullscreen());
    assert!(!g.sending());
}
