//! The reader that shows the user which keys are down while a hotkey is being
//! chosen.
//!
//! Like the poller it is a step function: its thread reads the keyboard at a
//! fixed interval and hands each reading over. A reading is announced when it
//! differs from the one before and holds at least one key.

use vstd::prelude::*;
use vstd::string::*;
use crate::keys::Keycode;
use crate::text::{join_with, joined, texts};

verus! {

/// The reader as plain values.
pub struct ReaderView {
    /// The reader thread is meant to go on.
    pub on: bool,
    /// The reading of the step before.
    pub prev: Seq<Keycode>,
}

/// The reader: its switch and the last reading.
#[derive(Debug, PartialEq, Eq)]
pub struct HotkeysReader {
    on: bool,
    prev_keys: Vec<Keycode>,
}

impl View for HotkeysReader {
    type V = ReaderView;

    closed spec fn view(&self) -> ReaderView {
        ReaderView { on: self.on, prev: self.prev_keys@ }
    }
}

impl HotkeysReader {
    /// The reader of a fresh process: switched on, with nothing read.
    pub fn new() -> (r: HotkeysReader)
        ensures
            r@ == (ReaderView { on: true, prev: Seq::empty() }),
    {
        HotkeysReader { on: true, prev_keys: Vec::new() }
    }
}

/// Whether the reader thread is meant to go on.
pub fn hotkey_reader_on(reader: &HotkeysReader) -> (r: bool)
    ensures
        r == reader@.on,
{
    reader.on
}

/// Tells the reader thread to go on, or asks it to end.
pub fn set_hotkey_reader_on(reader: &mut HotkeysReader, state: bool)
    ensures
        final(reader)@ == (ReaderView { on: state, ..old(reader)@ }),
{
    reader.on = state;
}

/// Switches the reader on and forgets the last reading; the caller then
/// starts the reader thread.
pub fn hotkeys_listen(reader: &mut HotkeysReader)
    ensures
        final(reader)@ == (ReaderView { on: true, prev: Seq::empty() }),
{
    set_hotkey_reader_on(reader, true);
    reader.prev_keys = Vec::new();
}

/// Asks the reader thread to end.
pub fn hotkeys_unlisten(reader: &mut HotkeysReader)
    ensures
        final(reader)@ == (ReaderView { on: false, ..old(reader)@ }),
{
    set_hotkey_reader_on(reader, false);
}

/// What the reader thread does after a step.
#[derive(Debug, PartialEq, Eq)]
pub enum ReaderStep {
    /// The reader was switched off: end the thread. The last reading comes
    /// along.
    Stop(Vec<Keycode>),
    /// Read again after the interval; announce the reading first where
    /// `announce` is set.
    Continue { announce: bool },
}

/// Whether a reading is announced: it holds a key and differs from the
/// reading before.
pub open spec fn announces(prev: Seq<Keycode>, keys: Seq<Keycode>) -> bool {
    keys != prev && keys.len() > 0
}

/// Whether two readings hold the same keys in the same order.
fn same_reading(a: &Vec<Keycode>, b: &Vec<Keycode>) -> (r: bool)
    ensures
        r == (a@ == b@),
{
    if a.len() != b.len() {
        return false;
    }
    let n: usize = a.len();
    let mut i: usize = 0;
    while i < n
        invariant
            n == a@.len(),
            n == b@.len(),
            i <= n,
            forall|k: int| 0 <= k < i ==> a@[k] == b@[k],
        decreases n - i,
    {
        if a[i] != b[i] {
            return false;
        }
        i += 1;
    }
    assert(a@ =~= b@);
    true
}

/// One step of the reader thread, with the keys that are down now.
pub fn hotkeys_reader(reader: &mut HotkeysReader, keys: Vec<Keycode>) -> (r: ReaderStep)
    ensures
        match r {
            ReaderStep::Stop(last) => {
                &&& !old(reader)@.on
                &&& last@ == old(reader)@.prev
                &&& final(reader)@ == (ReaderView { on: false, prev: Seq::empty() })
            },
            ReaderStep::Continue { announce } => {
                &&& old(reader)@.on
                &&& announce == announces(old(reader)@.prev, keys@)
                &&& final(reader)@ == (ReaderView { on: true, prev: keys@ })
            },
        },
{
    if !hotkey_reader_on(reader) {
        let mut last: Vec<Keycode> = Vec::new();
        std::mem::swap(&mut last, &mut reader.prev_keys);
        return ReaderStep::Stop(last);
    }
    let announce = !same_reading(&keys, &reader.prev_keys) && !keys.is_empty();
    reader.prev_keys = keys;
    ReaderStep::Continue { announce }
}

/// The announcement of a reading: the names of its keys, separated by commas.
pub fn format_keycodes(names: &Vec<String>) -> (r: String)
    ensures
        r@ == joined(texts(names@), seq![',']),
{
    proof {
        reveal_strlit(",");
    }
    let r = join_with(names, ",");
    assert(","@ =~= seq![',']);
    r
}

} // verus!
