//! What the low-level keyboard hook answers for the meta key.
//!
//! The hook is called for every keyboard event of the system and has to
//! return at once. It reads the shared flags and the policy, answers whether the
//! event goes on to the next hook or is swallowed, and names the synthetic
//! input that is to be sent in its place, which the caller sends from
//! another thread.

use vstd::prelude::*;
use vstd::string::*;
use crate::gate::{GateView, SharedGate};
use crate::keys::{
    chord,
    hotkeys_list_devicequery_to_rdev,
    plan_view,
    send_hotkeys,
    send_string,
    translated,
    Keycode,
    Synthetic,
    SyntheticView,
};
use crate::settings::{Settings, SettingsView, WinKeySetting};

verus! {

/// The hook code that asks for an event to be processed.
pub const HC_ACTION: i32 = 0;

/// The virtual-key code of the left meta key.
pub const VK_LWIN: u32 = 0x5B;

/// The virtual-key code of the right meta key.
pub const VK_RWIN: u32 = 0x5C;

/// The message for a key going down.
pub const WM_KEYDOWN: usize = 0x0100;

/// The message for a key going down while a menu key is held.
pub const WM_SYSKEYDOWN: usize = 0x0104;

/// What a press of the meta key does, with what it needs to do it.
#[derive(Debug, PartialEq, Eq)]
pub enum WinKeyPolicy {
    Normal,
    DisableInFullscreen,
    /// Swallow the press and play this combination.
    RedirectToHotkey(Vec<Keycode>),
    /// Swallow the press and type this text.
    TypeText(String),
}

/// A policy as plain values.
pub enum PolicyView {
    Normal,
    DisableInFullscreen,
    RedirectToHotkey(Seq<Keycode>),
    TypeText(Seq<char>),
}

impl View for WinKeyPolicy {
    type V = PolicyView;

    open spec fn view(&self) -> PolicyView {
        match *self {
            WinKeyPolicy::Normal => PolicyView::Normal,
            WinKeyPolicy::DisableInFullscreen => PolicyView::DisableInFullscreen,
            WinKeyPolicy::RedirectToHotkey(keys) => PolicyView::RedirectToHotkey(keys@),
            WinKeyPolicy::TypeText(text) => PolicyView::TypeText(text@),
        }
    }
}

/// The keys of a parsed combination; none where it could not be read.
pub open spec fn keys_or_none(parsed: Result<Vec<Keycode>, String>) -> Seq<Keycode> {
    match parsed {
        Ok(keys) => keys@,
        Err(_) => Seq::empty(),
    }
}

/// The policy that the settings ask for. A combination that could not be
/// read counts as the empty combination: the press is still swallowed, and
/// nothing is played.
pub open spec fn policy_of(settings: SettingsView, hotkey: Seq<Keycode>) -> PolicyView {
    match settings.win_key {
        WinKeySetting::Normal => PolicyView::Normal,
        WinKeySetting::DisableInFullscreen => PolicyView::DisableInFullscreen,
        WinKeySetting::Hotkey => PolicyView::RedirectToHotkey(hotkey),
        WinKeySetting::Text => PolicyView::TypeText(settings.win_key_text),
    }
}

/// Reads the policy out of the settings. `hotkey` is the parsed combination
/// of `win_key_hotkey`.
pub fn win_key_policy(settings: &Settings, hotkey: Result<Vec<Keycode>, String>) -> (r:
    WinKeyPolicy)
    ensures
        r@ == policy_of(settings@, keys_or_none(hotkey)),
{
    match settings.win_key {
        WinKeySetting::Normal => WinKeyPolicy::Normal,
        WinKeySetting::DisableInFullscreen => WinKeyPolicy::DisableInFullscreen,
        WinKeySetting::Hotkey => match hotkey {
            Ok(keys) => WinKeyPolicy::RedirectToHotkey(keys),
            Err(_) => WinKeyPolicy::RedirectToHotkey(Vec::new()),
        },
        WinKeySetting::Text => WinKeyPolicy::TypeText(settings.win_key_text.clone()),
    }
}

/// The hook's answer to the system.
#[derive(Clone, Copy, Debug, PartialEq, Eq, Structural)]
pub enum HookVerdict {
    /// Hand the event to the next hook in the chain.
    Allow,
    /// Report the event as handled, so that nothing else sees it.
    Suppress,
}

/// The hook's answer, with the synthetic input to send in place of the
/// event.
#[derive(Debug, PartialEq, Eq)]
pub struct HookAnswer {
    pub verdict: HookVerdict,
    pub dispatch: Vec<Synthetic>,
}

/// The event is a meta key going down.
pub open spec fn is_meta_press(code: i32, w_param: usize, vk_code: u32) -> bool {
    &&& code == HC_ACTION
    &&& vk_code == VK_LWIN || vk_code == VK_RWIN
    &&& w_param == WM_KEYDOWN || w_param == WM_SYSKEYDOWN
}

/// Whether the hook swallows the event. Only a meta key going down while the
/// application is active can be swallowed: under `DisableInFullscreen` while
/// the foreground window is fullscreen, and always under the two redirecting
/// policies.
pub open spec fn suppresses(policy: PolicyView, gate: GateView, meta_press: bool) -> bool {
    meta_press && gate.app_active && match policy {
        PolicyView::Normal => false,
        PolicyView::DisableInFullscreen => gate.fullscreen,
        PolicyView::RedirectToHotkey(_) => true,
        PolicyView::TypeText(_) => true,
    }
}

/// The synthetic input that takes the place of a swallowed press: the chord
/// of the translated combination, or the text as one insertion.
pub open spec fn redirect(policy: PolicyView) -> Seq<SyntheticView> {
    match policy {
        PolicyView::RedirectToHotkey(keys) => if keys.len() == 0 {
            Seq::empty()
        } else {
            chord(translated(keys))
        },
        PolicyView::TypeText(text) => seq![SyntheticView::Text(text)],
        _ => Seq::empty(),
    }
}

/// A copy of a combination.
fn copy_keys(keys: &Vec<Keycode>) -> (r: Vec<Keycode>)
    ensures
        r@ == keys@,
{
    let n: usize = keys.len();
    let mut out: Vec<Keycode> = Vec::new();
    let mut i: usize = 0;
    while i < n
        invariant
            n == keys@.len(),
            i <= n,
            out@ == keys@.subrange(0, i as int),
        decreases n - i,
    {
        out.push(keys[i]);
        i += 1;
    }
    assert(out@ =~= keys@);
    out
}

/// Answers one call of the hook. `code` and `w_param` are what the system
/// passed, `vk_code` is the virtual-key code of the event.
pub fn hook_callback(
    code: i32,
    w_param: usize,
    vk_code: u32,
    gate: &SharedGate,
    policy: &WinKeyPolicy,
) -> (r: HookAnswer)
    ensures
        r.verdict == if suppresses(policy@, gate@, is_meta_press(code, w_param, vk_code)) {
            HookVerdict::Suppress
        } else {
            HookVerdict::Allow
        },
        plan_view(r.dispatch@) == if suppresses(
            policy@,
            gate@,
            is_meta_press(code, w_param, vk_code),
        ) {
            redirect(policy@)
        } else {
            Seq::empty()
        },
{
    let allow = HookAnswer { verdict: HookVerdict::Allow, dispatch: Vec::new() };
    assert(plan_view(allow.dispatch@) =~= Seq::empty());
    if !(code == HC_ACTION && gate.app_active()) {
        return allow;
    }
    if !((vk_code == VK_LWIN || vk_code == VK_RWIN) && (w_param == WM_KEYDOWN || w_param
        == WM_SYSKEYDOWN)) {
        return allow;
    }
    match policy {
        WinKeyPolicy::Normal => allow,
        WinKeyPolicy::DisableInFullscreen => {
            if gate.fullscreen() {
                HookAnswer { verdict: HookVerdict::Suppress, dispatch: Vec::new() }
            } else {
                allow
            }
        },
        WinKeyPolicy::RedirectToHotkey(hotkeys) => {
            let data = hotkeys_list_devicequery_to_rdev(copy_keys(hotkeys));
            HookAnswer { verdict: HookVerdict::Suppress, dispatch: send_hotkeys(data) }
        },
        WinKeyPolicy::TypeText(text) => {
            HookAnswer { verdict: HookVerdict::Suppress, dispatch: send_string(text.as_str()) }
        },
    }
}

} // verus!
