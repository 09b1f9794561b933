//! The settings that the input paths read.

use vstd::prelude::*;
use vstd::string::*;

verus! {

/// How many clipboard items are kept where the settings say nothing else.
pub const DEFAULT_MAX_CLIPBOARD_ITEMS: u16 = 150;

/// What a press of the meta key does.
#[derive(Debug, Copy, Clone, PartialEq, Eq, Structural)]
pub enum WinKeySetting {
    /// The press goes through.
    Normal,
    /// The press is swallowed while the foreground window is fullscreen.
    DisableInFullscreen,
    /// The press is swallowed and a configured combination is played.
    Hotkey,
    /// The press is swallowed and a configured text is typed.
    Text,
}

/// The setting that a stored number stands for.
pub open spec fn win_key_of(value: i8) -> Option<WinKeySetting> {
    if value == 0 {
        Some(WinKeySetting::Normal)
    } else if value == 1 {
        Some(WinKeySetting::DisableInFullscreen)
    } else if value == 2 {
        Some(WinKeySetting::Hotkey)
    } else if value == 3 {
        Some(WinKeySetting::Text)
    } else {
        None
    }
}

impl WinKeySetting {
    /// The number under which the setting is stored.
    pub open spec fn number(self) -> i8 {
        match self {
            WinKeySetting::Normal => 0,
            WinKeySetting::DisableInFullscreen => 1,
            WinKeySetting::Hotkey => 2,
            WinKeySetting::Text => 3,
        }
    }

    /// The setting stored as `value`; any number outside 0 to 3 is refused.
    pub fn try_from(value: i8) -> (r: Result<WinKeySetting, &'static str>)
        ensures
            match r {
                Ok(setting) => win_key_of(value) == Some(setting),
                Err(message) => win_key_of(value) is None && message@
                    == "Invalid value for WinKeySetting"@,
            },
    {
        match value {
            0 => Ok(WinKeySetting::Normal),
            1 => Ok(WinKeySetting::DisableInFullscreen),
            2 => Ok(WinKeySetting::Hotkey),
            3 => Ok(WinKeySetting::Text),
            _ => Err("Invalid value for WinKeySetting"),
        }
    }

    /// The number under which the setting is stored.
    pub fn to_number(self) -> (n: i8)
        ensures
            n == self.number(),
    {
        match self {
            WinKeySetting::Normal => 0,
            WinKeySetting::DisableInFullscreen => 1,
            WinKeySetting::Hotkey => 2,
            WinKeySetting::Text => 3,
        }
    }
}

/// A setting survives being stored and read back.
pub proof fn lemma_win_key_round_trip(setting: WinKeySetting)
    ensures
        win_key_of(setting.number()) == Some(setting),
{
}

/// The settings as they are stored.
#[derive(Debug, PartialEq, Eq)]
pub struct Settings {
    pub clipboard_max_count: u16,
    pub autorun: bool,
    pub win_key: WinKeySetting,
    /// The combination played under `WinKeySetting::Hotkey`, as key names
    /// separated by commas.
    pub win_key_hotkey: String,
    /// The text typed under `WinKeySetting::Text`.
    pub win_key_text: String,
    /// The combination that shows the window, as key names separated by
    /// commas.
    pub show_app_hotkey: String,
}

/// The settings as plain values.
pub struct SettingsView {
    pub clipboard_max_count: u16,
    pub autorun: bool,
    pub win_key: WinKeySetting,
    pub win_key_hotkey: Seq<char>,
    pub win_key_text: Seq<char>,
    pub show_app_hotkey: Seq<char>,
}

impl View for Settings {
    type V = SettingsView;

    open spec fn view(&self) -> SettingsView {
        SettingsView {
            clipboard_max_count: self.clipboard_max_count,
            autorun: self.autorun,
            win_key: self.win_key,
            win_key_hotkey: self.win_key_hotkey@,
            win_key_text: self.win_key_text@,
            show_app_hotkey: self.show_app_hotkey@,
        }
    }
}

/// The settings of a process that has loaded none.
pub open spec fn default_settings() -> SettingsView {
    SettingsView {
        clipboard_max_count: DEFAULT_MAX_CLIPBOARD_ITEMS,
        autorun: false,
        win_key: WinKeySetting::Normal,
        win_key_hotkey: Seq::empty(),
        win_key_text: Seq::empty(),
        show_app_hotkey: "LControl,Key1"@,
    }
}

impl Clone for Settings {
    fn clone(&self) -> (r: Settings)
        ensures
            r@ == self@,
    {
        Settings {
            clipboard_max_count: self.clipboard_max_count,
            autorun: self.autorun,
            win_key: self.win_key,
            win_key_hotkey: self.win_key_hotkey.clone(),
            win_key_text: self.win_key_text.clone(),
            show_app_hotkey: self.show_app_hotkey.clone(),
        }
    }
}

/// The settings of a process that has loaded none.
pub fn get_settings_instance() -> (r: Settings)
    ensures
        r@ == default_settings(),
{
    Settings {
        clipboard_max_count: DEFAULT_MAX_CLIPBOARD_ITEMS,
        autorun: false,
        win_key: WinKeySetting::Normal,
        win_key_hotkey: String::new(),
        win_key_text: String::new(),
        show_app_hotkey: "LControl,Key1".to_owned(),
    }
}

/// The view of optional settings.
pub open spec fn loaded_view(loaded: Option<Settings>) -> Option<SettingsView> {
    match loaded {
        Some(s) => Some(s@),
        None => None,
    }
}

/// Takes over `new_data` where there is any, and returns a copy of the
/// settings that are then in force.
pub fn set_settings(settings: &mut Settings, new_data: Option<Settings>) -> (r: Settings)
    ensures
        final(settings)@ == match new_data {
            Some(data) => data@,
            None => old(settings)@,
        },
        r@ == final(settings)@,
{
    if let Some(data) = new_data {
        *settings = data;
    }
    settings.clone()
}

/// What follows a reload of the settings.
#[derive(Debug, PartialEq, Eq)]
pub struct SettingsUpdate {
    /// The settings now in force.
    pub settings: Settings,
    /// The stored file was unreadable and is to be rewritten from `settings`.
    pub rewrite: bool,
}

/// Takes the outcome of reading the stored settings: what was read replaces
/// the settings in force; where nothing could be read they stay, and are to
/// be written back. Either way the caller then applies the autorun switch and
/// restarts the hotkey poller.
pub fn update_settings(settings: &mut Settings, loaded: Option<Settings>) -> (r: SettingsUpdate)
    ensures
        final(settings)@ == match loaded {
            Some(data) => data@,
            None => old(settings)@,
        },
        r.settings@ == final(settings)@,
        r.rewrite == (loaded is None),
{
    let rewrite = loaded.is_none();
    let current = set_settings(settings, loaded);
    SettingsUpdate { settings: current, rewrite }
}

} // verus!
