use cboard::auto_replacement::{
    enable_key_listener, initialize_auto_repl_map, initialize_key_log, set_auto_replacement_data,
    Event, EventType, KeyLog,
};
use cboard::common::KeyValue;
use cboard::gate::SharedGate;
use cboard::hotkeys_listener::{listen, parse_keycodes, run, split_keycodes, Callback, HotkeyPoller, PollStep, RunStep};
use cboard::keys::{Key, Keycode, Synthetic};
use cboard::processes::app_active_state;
use cboard::sender::Burst;
use cboard::settings::{get_settings_instance, update_settings, WinKeySetting};
use cboard::win_key_hook::{hook_callback, win_key_policy, HookVerdict, WinKeyPolicy, HC_ACTION, VK_LWIN, WM_KEYDOWN};
use parking_lot::{Condvar, Mutex};
use std::sync::Arc;

struct Core {
    gate: SharedGate,
    log: KeyLog,
    policy: WinKeyPolicy,
}

fn new_core() -> Arc<Mutex<Core>> {
    Arc::new(Mutex::new(Core {
        gate: initialize_auto_repl_map(),
        log: initialize_key_log(),
        policy: WinKeyPolicy::Normal,
    }))
}

fn name_to_key(name: &str) -> Result<Keycode, String> {
    match name {
        "LControl" => Ok(Keycode::LControl),
        "Key1" => Ok(Keycode::Key1),
        "Escape" => Ok(Keycode::Escape),
        _ => Err("failed to parse keycode".to_string()),
    }
}

fn parse(input: &str) -> Result<Vec<Keycode>, String> {
    parse_keycodes(split_keycodes(input).iter().map(|name| name_to_key(name)).collect())
}

fn play(core: &Arc<Mutex<Core>>, mut burst: Burst, refuse: bool) -> Vec<Synthetic> {
    let mut out = Vec::new();
    let mut last_ok = true;
    loop {
        let unit = {
            let mut core = core.lock();
            burst.advance(&mut core.gate, last_ok)
        };
        match unit {
            Some(unit) => {
                assert!(core.lock().gate.sending());
                out.push(unit);
                last_ok = !refuse;
            }
            None => break,
        }
    }
    out
}

#[test]
fn capture_and_sender_share_one_lock() {
    let core = new_core();
    {
        let mut core = core.lock();
        set_auto_replacement_data(
            &mut core.gate,
            vec![KeyValue { key: "ab".to_string(), value: "ab!".to_string() }],
        );
    }
    let mut orders = Vec::new();
    for (key, name) in [(Key::KeyA, "a"), (Key::KeyB, "b")] {
        let event = Event { name: Some(name.to_string()), event_type: EventType::KeyPress(key) };
        let order = {
            let mut core = core.lock();
            let core = &mut *core;
            enable_key_listener(&core.gate, &mut core.log, event, "en-US".to_string())
        };
        orders.extend(order);
    }
    assert_eq!(orders.len(), 1);
    let plan = play(&core, Burst::replacement(&orders[0]), true);
    assert_eq!(plan.len(), 5);
    assert!(!core.lock().gate.sending());
    assert!(app_active_state(&core.lock().gate));
    assert_eq!(core.lock().log.len(), 0);
}

#[test]
fn hook_dispatch_goes_through_a_burst() {
    let core = new_core();
    let mut settings = get_settings_instance();
    let mut loaded = get_settings_instance();
    loaded.win_key = WinKeySetting::Hotkey;
    loaded.win_key_hotkey = "LControl,Escape".to_string();
    let update = update_settings(&mut settings, Some(loaded));
    assert!(!update.rewrite);
    core.lock().policy = win_key_policy(&settings, parse(&settings.win_key_hotkey));

    let answer = {
        let core = core.lock();
        hook_callback(HC_ACTION, WM_KEYDOWN, VK_LWIN, &core.gate, &core.policy)
    };
    assert_eq!(answer.verdict, HookVerdict::Suppress);
    let plan = play(&core, Burst::new(answer.dispatch), false);
    assert_eq!(
        plan,
        vec![
            Synthetic::KeyPress(Key::ControlLeft),
            Synthetic::KeyPress(Key::Escape),
            Synthetic::KeyRelease(Key::ControlLeft),
            Synthetic::KeyRelease(Key::Escape),
        ]
    );
    assert!(!core.lock().gate.sending());

    core.lock().policy = win_key_policy(&settings, parse("LControl,Nope"));
    let answer = {
        let core = core.lock();
        hook_callback(HC_ACTION, WM_KEYDOWN, VK_LWIN, &core.gate, &core.policy)
    };
    assert_eq!(answer.verdict, HookVerdict::Suppress);
    assert!(answer.dispatch.is_empty());
}

fn poll_once(poller: &(Mutex<HotkeyPoller>, Condvar), keys: Vec<Keycode>) -> Option<Vec<Callback>> {
    let (lock, cvar) = poller;
    let step = {
        let mut poller = lock.lock();
        listen(&mut poller, keys)
    };
    match step {
        PollStep::Exit => {
            cvar.notify_one();
            None
        }
        PollStep::Continue(callbacks) => Some(callbacks),
    }
}

#[test]
fn restart_waits_for_the_poll_step() {
    let poller = Arc::new((Mutex::new(HotkeyPoller::new()), Condvar::new()));
    {
        let (lock, _) = &*poller;
        assert_eq!(run(&mut lock.lock(), parse("LControl,Key1")), RunStep::Started);
    }
    assert_eq!(poll_once(&poller, vec![Keycode::LControl]), Some(vec![]));
    assert_eq!(
        poll_once(&poller, vec![Keycode::LControl, Keycode::Key1]),
        Some(vec![Callback::ShowWindow])
    );

    // the restart is asked for: until the poll step has acknowledged, the
    // caller is told to wait and the subscriptions stay
    {
        let (lock, _) = &*poller;
        let mut guard = lock.lock();
        assert_eq!(run(&mut guard, parse("Escape")), RunStep::Wait);
        assert_eq!(guard.listener().pressed(&vec![Keycode::Escape]), vec![]);
    }
    assert_eq!(poll_once(&poller, vec![Keycode::Escape]), None);
    {
        let (lock, _) = &*poller;
        let mut guard = lock.lock();
        assert_eq!(run(&mut guard, parse("Escape")), RunStep::Started);
        assert!(guard.alive());
        assert_eq!(guard.listener().len(), 2);
        assert_eq!(guard.listener().pressed(&vec![Keycode::Escape]), vec![Callback::ShowWindow]);
    }
    assert_eq!(poll_once(&poller, vec![Keycode::Escape]), Some(vec![Callback::ShowWindow]));
}
