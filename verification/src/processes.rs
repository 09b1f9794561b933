//! What the window watch does with what it finds in the foreground.
//!
//! The watch itself asks the system which window is in front and to which
//! process it belongs. The decisions it takes from the answers are here: the
//! blacklist switches the application off and on, and the size of the
//! foreground window decides the fullscreen flag.

use vstd::prelude::*;
use vstd::string::*;
use crate::gate::{GateView, SharedGate};
use crate::text::{copy_opt, opt_text, same_text};

verus! {

/// Whether the application is enabled for the program in the foreground.
pub fn app_active_state(gate: &SharedGate) -> (r: bool)
    ensures
        r == gate@.app_active,
{
    gate.app_active()
}

/// Switches the application on or off.
pub fn set_app_active_state(gate: &mut SharedGate, state: bool)
    ensures
        final(gate)@ == (GateView { app_active: state, ..old(gate)@ }),
{
    gate.set_app_active(state);
}

/// Whether the foreground window covers the screen.
pub fn is_fg_window_fullscreen(gate: &SharedGate) -> (r: bool)
    ensures
        r == gate@.fullscreen,
{
    gate.fullscreen()
}

/// Records whether the foreground window covers the screen.
pub fn set_is_fg_window_fullscreen(gate: &mut SharedGate, state: bool)
    ensures
        final(gate)@ == (GateView { fullscreen: state, ..old(gate)@ }),
{
    gate.set_fullscreen(state);
}

/// A process that owns a visible window.
#[derive(Debug, PartialEq, Eq)]
pub struct MyProcess {
    pub pid: u32,
    pub title: String,
    pub filename: String,
    pub filepath: String,
}

/// A process as plain values.
pub struct ProcessView {
    pub pid: u32,
    pub title: Seq<char>,
    pub filename: Seq<char>,
    pub filepath: Seq<char>,
}

impl View for MyProcess {
    type V = ProcessView;

    open spec fn view(&self) -> ProcessView {
        ProcessView {
            pid: self.pid,
            title: self.title@,
            filename: self.filename@,
            filepath: self.filepath@,
        }
    }
}

impl Clone for MyProcess {
    fn clone(&self) -> (r: MyProcess)
        ensures
            r@ == self@,
    {
        MyProcess {
            pid: self.pid,
            title: self.title.clone(),
            filename: self.filename.clone(),
            filepath: self.filepath.clone(),
        }
    }
}

/// One entry of the blacklist: a program, and whether the entry is in force.
#[derive(Debug, PartialEq, Eq)]
pub struct BlacklistItem {
    pub filepath: String,
    pub enabled: bool,
    pub filename: Option<String>,
    pub title: Option<String>,
}

/// An entry as plain values.
pub struct BlacklistItemView {
    pub filepath: Seq<char>,
    pub enabled: bool,
    pub filename: Option<Seq<char>>,
    pub title: Option<Seq<char>>,
}

impl View for BlacklistItem {
    type V = BlacklistItemView;

    open spec fn view(&self) -> BlacklistItemView {
        BlacklistItemView {
            filepath: self.filepath@,
            enabled: self.enabled,
            filename: opt_text(self.filename),
            title: opt_text(self.title),
        }
    }
}

impl Clone for BlacklistItem {
    fn clone(&self) -> (r: BlacklistItem)
        ensures
            r@ == self@,
    {
        BlacklistItem {
            filepath: self.filepath.clone(),
            enabled: self.enabled,
            filename: copy_opt(&self.filename),
            title: copy_opt(&self.title),
        }
    }
}

/// The entries of a blacklist, each taken by its view.
pub open spec fn blacklist_view(items: Seq<BlacklistItem>) -> Seq<BlacklistItemView> {
    items.map_values(|b: BlacklistItem| b@)
}

/// Entry `i` is the first entry for the program at `path`.
pub open spec fn first_listed(blacklist: Seq<BlacklistItemView>, path: Seq<char>, i: int) -> bool {
    &&& 0 <= i < blacklist.len()
    &&& blacklist[i].filepath == path
    &&& forall|j: int| 0 <= j < i ==> (#[trigger] blacklist[j]).filepath != path
}

/// Whether the application is enabled once the program at `path` is in the
/// foreground. An empty blacklist changes nothing. A program that is not
/// listed switches the application on. For a listed program its first entry
/// decides: in force, it switches the application off; not in force, it
/// changes nothing.
pub open spec fn active_after(active: bool, blacklist: Seq<BlacklistItemView>, path: Seq<char>) -> bool {
    if blacklist.len() == 0 {
        active
    } else if exists|i: int| first_listed(blacklist, path, i) {
        let i = choose|i: int| first_listed(blacklist, path, i);
        if blacklist[i].enabled {
            false
        } else {
            active
        }
    } else {
        true
    }
}

/// The place of the first entry for the program at `path`.
fn find_listed(blacklist: &Vec<BlacklistItem>, path: &str) -> (r: Option<usize>)
    ensures
        match r {
            Some(i) => first_listed(blacklist_view(blacklist@), path@, i as int),
            None => forall|i: int| !first_listed(blacklist_view(blacklist@), path@, i),
        },
{
    let n: usize = blacklist.len();
    let mut i: usize = 0;
    while i < n
        invariant
            n == blacklist@.len(),
            i <= n,
            forall|k: int| 0 <= k < i ==> (#[trigger] blacklist_view(blacklist@)[k]).filepath != path@,
        decreases n - i,
    {
        if same_text(blacklist[i].filepath.as_str(), path) {
            return Some(i);
        }
        i += 1;
    }
    None
}

/// Applies the blacklist to the process in the foreground.
pub fn handle_blacklist_window(
    gate: &mut SharedGate,
    blacklist: &Vec<BlacklistItem>,
    current_process: &MyProcess,
)
    ensures
        final(gate)@ == (GateView {
            app_active: active_after(
                old(gate)@.app_active,
                blacklist_view(blacklist@),
                current_process.filepath@,
            ),
            ..old(gate)@
        }),
{
    let ghost view = blacklist_view(blacklist@);
    let ghost path = current_process.filepath@;
    if is_blacklist_empty(blacklist) {
        return ;
    }
    match find_listed(blacklist, current_process.filepath.as_str()) {
        Some(i) => {
            proof {
                let c = choose|c: int| first_listed(view, path, c);
                if c < i {
                    assert(view[c].filepath != path);
                } else if i < c {
                    assert(view[i as int].filepath != path);
                }
            }
            if blacklist[i].enabled {
                set_app_active_state(gate, false);
            }
        },
        None => {
            set_app_active_state(gate, true);
        },
    }
}

/// The name of the shell, whose windows never count as fullscreen.
pub open spec fn shell_name() -> Seq<char> {
    "explorer.exe"@
}

/// Takes the outcome of the fullscreen probe for the process in the
/// foreground. The shell's windows are passed over.
pub fn handle_full_screen_app(gate: &mut SharedGate, process: &MyProcess, fullscreen: bool)
    ensures
        final(gate)@ == if process.filename@ == shell_name() {
            old(gate)@
        } else {
            GateView { fullscreen, ..old(gate)@ }
        },
{
    if same_text(process.filename.as_str(), "explorer.exe") {
        return ;
    }
    set_is_fg_window_fullscreen(gate, fullscreen);
}

/// The rectangle of a window, in screen coordinates.
#[derive(Clone, Copy, Debug, PartialEq, Eq, Structural)]
pub struct Rect {
    pub left: i32,
    pub top: i32,
    pub right: i32,
    pub bottom: i32,
}

/// A window covers the screen when it is exactly as wide and as high.
pub open spec fn covers_screen(rect: Rect, screen_width: i32, screen_height: i32) -> bool {
    rect.right - rect.left == screen_width && rect.bottom - rect.top == screen_height
}

/// The fullscreen probe. `rect` is the rectangle of the window, absent where
/// the window is the desktop or the shell or has no rectangle; such a window
/// is never fullscreen.
pub fn is_fullscreen(rect: Option<Rect>, screen_width: i32, screen_height: i32) -> (r: bool)
    ensures
        r == match rect {
            Some(rc) => covers_screen(rc, screen_width, screen_height),
            None => false,
        },
{
    match rect {
        None => false,
        Some(rc) => {
            let width: i64 = rc.right as i64 - rc.left as i64;
            let height: i64 = rc.bottom as i64 - rc.top as i64;
            width == screen_width as i64 && height == screen_height as i64
        },
    }
}

/// Whether the blacklist holds no entry.
pub fn is_blacklist_empty(blacklist: &Vec<BlacklistItem>) -> (r: bool)
    ensures
        r == (blacklist@.len() == 0),
{
    blacklist.len() == 0
}

/// A copy of a blacklist.
fn copy_blacklist(items: &Vec<BlacklistItem>) -> (r: Vec<BlacklistItem>)
    ensures
        blacklist_view(r@) == blacklist_view(items@),
{
    let n: usize = items.len();
    let mut out: Vec<BlacklistItem> = Vec::new();
    let mut i: usize = 0;
    while i < n
        invariant
            n == items@.len(),
            i <= n,
            out@.len() == i,
            forall|k: int| 0 <= k < i ==> (#[trigger] out@[k])@ == items@[k]@,
        decreases n - i,
    {
        out.push(items[i].clone());
        i += 1;
    }
    assert(blacklist_view(out@) =~= blacklist_view(items@));
    out
}

/// Takes over `new_data` where there is any, and returns a copy of the
/// blacklist that is then in force.
pub fn set_blacklist_data(blacklist: &mut Vec<BlacklistItem>, new_data: Option<Vec<BlacklistItem>>) -> (r:
    Vec<BlacklistItem>)
    ensures
        blacklist_view(final(blacklist)@) == match new_data {
            Some(data) => blacklist_view(data@),
            None => blacklist_view(old(blacklist)@),
        },
        blacklist_view(r@) == blacklist_view(final(blacklist)@),
{
    if let Some(data) = new_data {
        *blacklist = data;
    }
    copy_blacklist(blacklist)
}

/// Takes the outcome of reading the stored blacklist. What was read replaces
/// the blacklist in force and nothing is to be written. Where nothing could
/// be read the blacklist stays, and a copy of it is returned to be written
/// back.
pub fn update_blacklist_data(
    blacklist: &mut Vec<BlacklistItem>,
    loaded: Option<Vec<BlacklistItem>>,
) -> (rewrite: Option<Vec<BlacklistItem>>)
    ensures
        blacklist_view(final(blacklist)@) == match loaded {
            Some(data) => blacklist_view(data@),
            None => blacklist_view(old(blacklist)@),
        },
        match rewrite {
            Some(data) => loaded is None && blacklist_view(data@) == blacklist_view(
                old(blacklist)@,
            ),
            None => loaded is Some,
        },
{
    match loaded {
        Some(data) => {
            set_blacklist_data(blacklist, Some(data));
            None
        },
        None => Some(set_blacklist_data(blacklist, None)),
    }
}

/// Process `i` is the first one with process id `pid`.
pub open spec fn first_with_pid(processes: Seq<MyProcess>, pid: u32, i: int) -> bool {
    &&& 0 <= i < processes.len()
    &&& processes[i].pid == pid
    &&& forall|j: int| 0 <= j < i ==> (#[trigger] processes[j]).pid != pid
}

/// The process that owns the foreground window: the first of `processes`
/// with process id `pid`.
pub fn active_window(processes: &Vec<MyProcess>, pid: u32) -> (r: Option<MyProcess>)
    ensures
        match r {
            Some(p) => exists|i: int|
                first_with_pid(processes@, pid, i) && (#[trigger] processes@[i])@ == p@,
            None => forall|i: int| 0 <= i < processes@.len() ==> (#[trigger] processes@[i]).pid != pid,
        },
{
    let n: usize = processes.len();
    let mut i: usize = 0;
    while i < n
        invariant
            n == processes@.len(),
            i <= n,
            forall|k: int| 0 <= k < i ==> (#[trigger] processes@[k]).pid != pid,
        decreases n - i,
    {
        if processes[i].pid == pid {
            assert(first_with_pid(processes@, pid, i as int));
            return Some(processes[i].clone());
        }
        i += 1;
    }
    None
}

} // verus!
