//! Programs that bring their own keyboard layout.

use vstd::prelude::*;
use vstd::string::*;
use crate::processes::MyProcess;
use crate::text::{copy_opt, hex_digit, hex_digit_str, opt_text, same_text};

verus! {

/// A program and the layout to switch to while it is in the foreground.
#[derive(Debug, PartialEq, Eq)]
pub struct AppItem {
    pub enabled: bool,
    pub filename: Option<String>,
    pub filepath: String,
    pub lang_id: u16,
    pub title: Option<String>,
}

/// An entry as plain values.
pub struct AppItemView {
    pub enabled: bool,
    pub filename: Option<Seq<char>>,
    pub filepath: Seq<char>,
    pub lang_id: u16,
    pub title: Option<Seq<char>>,
}

impl View for AppItem {
    type V = AppItemView;

    open spec fn view(&self) -> AppItemView {
        AppItemView {
            enabled: self.enabled,
            filename: opt_text(self.filename),
            filepath: self.filepath@,
            lang_id: self.lang_id,
            title: opt_text(self.title),
        }
    }
}

impl Clone for AppItem {
    fn clone(&self) -> (r: AppItem)
        ensures
            r@ == self@,
    {
        AppItem {
            enabled: self.enabled,
            filename: copy_opt(&self.filename),
            filepath: self.filepath.clone(),
            lang_id: self.lang_id,
            title: copy_opt(&self.title),
        }
    }
}

/// The entries of a list of programs, each taken by its view.
pub open spec fn apps_view(items: Seq<AppItem>) -> Seq<AppItemView> {
    items.map_values(|a: AppItem| a@)
}

/// Whether no program brings its own layout.
pub fn is_key_apps_empty(key_apps: &Vec<AppItem>) -> (r: bool)
    ensures
        r == (key_apps@.len() == 0),
{
    key_apps.len() == 0
}

/// A copy of a list of programs.
fn copy_apps(items: &Vec<AppItem>) -> (r: Vec<AppItem>)
    ensures
        apps_view(r@) == apps_view(items@),
{
    let n: usize = items.len();
    let mut out: Vec<AppItem> = Vec::new();
    let mut i: usize = 0;
    while i < n
        invariant
            n == items@.len(),
            i <= n,
            out@.len() == i,
            forall|k: int| 0 <= k < i ==> (#[trigger] out@[k])@ == items@[k]@,
        decreases n - i,
    {
        out.push(items[i].clone());
        i += 1;
    }
    assert(apps_view(out@) =~= apps_view(items@));
    out
}

/// Takes over `new_data` where there is any, and returns a copy of the list
/// that is then in force.
pub fn set_key_apps_data(key_apps: &mut Vec<AppItem>, new_data: Option<Vec<AppItem>>) -> (r: Vec<
    AppItem,
>)
    ensures
        apps_view(final(key_apps)@) == match new_data {
            Some(data) => apps_view(data@),
            None => apps_view(old(key_apps)@),
        },
        apps_view(r@) == apps_view(final(key_apps)@),
{
    if let Some(data) = new_data {
        *key_apps = data;
    }
    copy_apps(key_apps)
}

/// Takes the outcome of reading the stored list. What was read replaces the
/// list in force and nothing is to be written. Where nothing could be read
/// the list stays, and a copy of it is returned to be written back.
pub fn update_keyboard_layouts_data(key_apps: &mut Vec<AppItem>, loaded: Option<Vec<AppItem>>) -> (rewrite:
    Option<Vec<AppItem>>)
    ensures
        apps_view(final(key_apps)@) == match loaded {
            Some(data) => apps_view(data@),
            None => apps_view(old(key_apps)@),
        },
        match rewrite {
            Some(data) => loaded is None && apps_view(data@) == apps_view(old(key_apps)@),
            None => loaded is Some,
        },
{
    match loaded {
        Some(data) => {
            set_key_apps_data(key_apps, Some(data));
            None
        },
        None => Some(set_key_apps_data(key_apps, None)),
    }
}

/// Entry `i` is the first entry for the program at `path`.
pub open spec fn first_app(apps: Seq<AppItemView>, path: Seq<char>, i: int) -> bool {
    &&& 0 <= i < apps.len()
    &&& apps[i].filepath == path
    &&& forall|j: int| 0 <= j < i ==> (#[trigger] apps[j]).filepath != path
}

/// The layout to switch to for the process in the foreground: that of the
/// first entry for its program, where that entry is in force.
pub fn handle_keyboard_layout(key_apps: &Vec<AppItem>, current_process: &MyProcess) -> (r: Option<
    u16,
>)
    ensures
        match r {
            Some(lang_id) => exists|i: int|
                first_app(apps_view(key_apps@), current_process.filepath@, i) && (
                #[trigger] apps_view(key_apps@)[i]).enabled && apps_view(key_apps@)[i].lang_id
                    == lang_id,
            None => forall|i: int|
                first_app(apps_view(key_apps@), current_process.filepath@, i) ==> !apps_view(
                    key_apps@,
                )[i].enabled,
        },
{
    let ghost apps = apps_view(key_apps@);
    let ghost path = current_process.filepath@;
    let n: usize = key_apps.len();
    let mut i: usize = 0;
    while i < n
        invariant
            n == key_apps@.len(),
            i <= n,
            apps == apps_view(key_apps@),
            path == current_process.filepath@,
            forall|k: int| 0 <= k < i ==> (#[trigger] apps[k]).filepath != path,
        decreases n - i,
    {
        if same_text(key_apps[i].filepath.as_str(), current_process.filepath.as_str()) {
            assert(first_app(apps, path, i as int));
            assert forall|c: int| first_app(apps, path, c) implies c == i by {
                if c < i {
                    assert(apps[c].filepath != path);
                } else if i < c {
                    assert(apps[i as int].filepath != path);
                }
            }
            if key_apps[i].enabled {
                return Some(key_apps[i].lang_id);
            } else {
                return None;
            }
        }
        i += 1;
    }
    None
}

/// The name under which the system loads the layout of language `lang_code`:
/// the code in eight hexadecimal digits, upper case, zeros in front.
pub open spec fn layout_name(lang_code: u16) -> Seq<char> {
    seq![
        '0',
        '0',
        '0',
        '0',
        hex_digit(lang_code as int / 4096),
        hex_digit(lang_code as int / 256 % 16),
        hex_digit(lang_code as int / 16 % 16),
        hex_digit(lang_code as int % 16),
    ]
}

/// The layout to load so that `lang_code` becomes the layout of the window in
/// front; none where it is the current one already.
pub fn change_keyboard_layout(lang_code: u16, current: u16) -> (r: Option<String>)
    ensures
        lang_code == current ==> r is None,
        lang_code != current ==> r is Some && r->0@ == layout_name(lang_code),
{
    if lang_code == current {
        return None;
    }
    proof {
        reveal_strlit("0000");
    }
    let mut hex: String = "0000".to_owned();
    hex.append(hex_digit_str((lang_code / 4096) as u8));
    hex.append(hex_digit_str((lang_code / 256 % 16) as u8));
    hex.append(hex_digit_str((lang_code / 16 % 16) as u8));
    hex.append(hex_digit_str((lang_code % 16) as u8));
    assert(hex@ =~= layout_name(lang_code));
    Some(hex)
}

} // verus!
