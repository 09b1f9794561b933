//! Hotkey combinations, their subscriptions, and the poller that watches for
//! them.
//!
//! A combination is a set of polling keys. It is pressed when every one of its
//! keys is down, whatever else is down beside them. Subscriptions keep the
//! order in which their combinations first came, and no combination is
//! subscribed twice.
//!
//! The poller is a step function. Its thread reads the keyboard at a fixed
//! interval and hands each reading to `listen`; a caller that wants the
//! subscriptions rebuilt calls `run` until it answers `Started`, waiting for
//! the thread's acknowledgement in between.

use vstd::prelude::*;
use vstd::string::*;
use crate::keys::Keycode;
use crate::text::{split, split_on, texts};

verus! {

/// What a subscription asks for when its combination is pressed.
#[derive(Clone, Copy, Debug, PartialEq, Eq, Structural)]
pub enum Callback {
    /// Bring the application window to the front.
    ShowWindow,
    /// Take over what was just copied to the clipboard.
    CopyToClipboard,
}

/// Whether `key` is among `keys`.
pub fn contains_key(keys: &Vec<Keycode>, key: Keycode) -> (r: bool)
    ensures
        r == keys@.contains(key),
{
    let n: usize = keys.len();
    let mut i: usize = 0;
    while i < n
        invariant
            n == keys@.len(),
            i <= n,
            forall|k: int| 0 <= k < i ==> keys@[k] != key,
        decreases n - i,
    {
        if keys[i] == key {
            return true;
        }
        i += 1;
    }
    false
}

/// Whether every key of `part` is among `whole`.
pub fn all_among(part: &Vec<Keycode>, whole: &Vec<Keycode>) -> (r: bool)
    ensures
        r == part@.to_set().subset_of(whole@.to_set()),
{
    let n: usize = part.len();
    let mut i: usize = 0;
    while i < n
        invariant
            n == part@.len(),
            i <= n,
            forall|k: int| 0 <= k < i ==> whole@.contains(#[trigger] part@[k]),
        decreases n - i,
    {
        if !contains_key(whole, part[i]) {
            assert(part@.to_set().contains(part@[i as int]));
            assert(!whole@.to_set().contains(part@[i as int]));
            return false;
        }
        i += 1;
    }
    assert forall|k: Keycode| part@.to_set().contains(k) implies whole@.to_set().contains(k) by {
        let at = choose|at: int| 0 <= at < part@.len() && part@[at] == k;
        assert(whole@.contains(part@[at]));
    }
    true
}

/// Whether two readings hold the same keys, in whatever order.
pub fn same_keys(a: &Vec<Keycode>, b: &Vec<Keycode>) -> (r: bool)
    ensures
        r == (a@.to_set() == b@.to_set()),
{
    let r = all_among(a, b) && all_among(b, a);
    proof {
        if r {
            assert(a@.to_set() =~= b@.to_set());
        }
    }
    r
}

/// A hotkey combination.
#[derive(Debug)]
pub struct Hotkeys {
    keys: Vec<Keycode>,
}

impl View for Hotkeys {
    type V = Set<Keycode>;

    closed spec fn view(&self) -> Set<Keycode> {
        self.keys@.to_set()
    }
}

impl Clone for Hotkeys {
    fn clone(&self) -> (r: Hotkeys)
        ensures
            r@ == self@,
    {
        let n: usize = self.keys.len();
        let mut keys: Vec<Keycode> = Vec::new();
        let mut i: usize = 0;
        while i < n
            invariant
                n == self.keys@.len(),
                i <= n,
                keys@ == self.keys@.subrange(0, i as int),
            decreases n - i,
        {
            keys.push(self.keys[i]);
            i += 1;
        }
        assert(keys@ =~= self.keys@);
        Hotkeys { keys }
    }
}

impl Hotkeys {
    /// The combination of the keys listed.
    pub fn new(keys: Vec<Keycode>) -> (r: Hotkeys)
        ensures
            r@ == keys@.to_set(),
    {
        Hotkeys { keys }
    }

    /// Whether the combination is pressed while exactly `keys` are down:
    /// every key of it is among them.
    pub fn is_pressed(&self, keys: &Vec<Keycode>) -> (r: bool)
        ensures
            r == self@.subset_of(keys@.to_set()),
    {
        all_among(&self.keys, keys)
    }

    /// Whether two combinations hold the same keys.
    pub fn same_combo(&self, other: &Hotkeys) -> (r: bool)
        ensures
            r == (self@ == other@),
    {
        same_keys(&self.keys, &other.keys)
    }
}

/// One subscription: a combination and what it asks for.
pub struct Subscription {
    pub combo: Set<Keycode>,
    pub callback: Callback,
}

/// Subscription `i` is the one for `combo`.
pub open spec fn at_combo(subs: Seq<Subscription>, combo: Set<Keycode>, i: int) -> bool {
    0 <= i < subs.len() && subs[i].combo == combo
}

/// No combination is subscribed twice.
pub open spec fn distinct_combos(subs: Seq<Subscription>) -> bool {
    forall|i: int, j: int|
        0 <= i < j < subs.len() ==> (#[trigger] subs[i]).combo != (#[trigger] subs[j]).combo
}

/// The subscriptions after `combo` was subscribed to `callback`: a
/// combination that is already there keeps its place and takes the new
/// callback, a new one goes to the end.
pub open spec fn subscribed(subs: Seq<Subscription>, combo: Set<Keycode>, callback: Callback) -> Seq<
    Subscription,
> {
    if exists|i: int| at_combo(subs, combo, i) {
        subs.update(choose|i: int| at_combo(subs, combo, i), Subscription { combo, callback })
    } else {
        subs.push(Subscription { combo, callback })
    }
}

/// The subscriptions without the one for `combo`.
pub open spec fn unsubscribed(subs: Seq<Subscription>, combo: Set<Keycode>) -> Seq<Subscription> {
    if exists|i: int| at_combo(subs, combo, i) {
        subs.remove(choose|i: int| at_combo(subs, combo, i))
    } else {
        subs
    }
}

/// The callbacks of the subscriptions whose combination is pressed while the
/// keys of `pressed` are down, in the order of the subscriptions.
pub open spec fn fired(subs: Seq<Subscription>, pressed: Set<Keycode>) -> Seq<Callback>
    decreases subs.len(),
{
    if subs.len() == 0 {
        Seq::empty()
    } else if subs.last().combo.subset_of(pressed) {
        fired(subs.drop_last(), pressed).push(subs.last().callback)
    } else {
        fired(subs.drop_last(), pressed)
    }
}

/// The subscription table.
#[derive(Debug)]
pub struct HotkeysListener {
    subscribers: Vec<(Hotkeys, Callback)>,
}

impl View for HotkeysListener {
    type V = Seq<Subscription>;

    closed spec fn view(&self) -> Seq<Subscription> {
        self.subscribers@.map_values(
            |s: (Hotkeys, Callback)| Subscription { combo: s.0@, callback: s.1 },
        )
    }
}

impl HotkeysListener {
    /// No combination is subscribed twice.
    #[verifier::type_invariant]
    closed spec fn distinct(self) -> bool {
        distinct_combos(self@)
    }

    /// Reads off that no combination is subscribed twice.
    pub fn combos_are_distinct(&self)
        ensures
            distinct_combos(self@),
    {
        proof {
            use_type_invariant(self);
        }
    }

    /// The table without subscriptions.
    pub fn new() -> (r: HotkeysListener)
        ensures
            r@ == Seq::<Subscription>::empty(),
    {
        let r = HotkeysListener { subscribers: Vec::new() };
        assert(r@ =~= Seq::<Subscription>::empty());
        r
    }

    /// How many combinations are subscribed.
    pub fn len(&self) -> (n: usize)
        ensures
            n == self@.len(),
    {
        self.subscribers.len()
    }

    /// The place of the subscription for `hotkey`, if there is one.
    fn position(&self, hotkey: &Hotkeys) -> (r: Option<usize>)
        ensures
            match r {
                Some(i) => at_combo(self@, hotkey@, i as int),
                None => forall|i: int| !at_combo(self@, hotkey@, i),
            },
    {
        let n: usize = self.subscribers.len();
        let mut i: usize = 0;
        while i < n
            invariant
                n == self.subscribers@.len(),
                i <= n,
                forall|k: int| 0 <= k < i ==> !at_combo(self@, hotkey@, k),
            decreases n - i,
        {
            if self.subscribers[i].0.same_combo(hotkey) {
                return Some(i);
            }
            i += 1;
        }
        None
    }

    /// Subscribes `hotkey` to `callback`. A combination that is subscribed
    /// already keeps its place and takes the new callback.
    pub fn subscribe(&mut self, hotkey: Hotkeys, callback: Callback)
        ensures
            final(self)@ == subscribed(old(self)@, hotkey@, callback),
    {
        proof {
            use_type_invariant(&*self);
        }
        let found = self.position(&hotkey);
        let ghost before = self@;
        let ghost entry = Subscription { combo: hotkey@, callback };
        let ghost after = match found {
            Some(i) => before.update(i as int, entry),
            None => before.push(entry),
        };
        let mut subscribers: Vec<(Hotkeys, Callback)> = Vec::new();
        std::mem::swap(&mut subscribers, &mut self.subscribers);
        match found {
            Some(i) => {
                proof {
                    let c = choose|c: int| at_combo(before, hotkey@, c);
                    if c < i {
                        assert(before[c].combo != before[i as int].combo);
                    } else if i < c {
                        assert(before[i as int].combo != before[c].combo);
                    }
                }
                subscribers.set(i, (hotkey, callback));
            },
            None => {
                subscribers.push((hotkey, callback));
            },
        }
        proof {
            assert(subscribers@.map_values(
                |s: (Hotkeys, Callback)| Subscription { combo: s.0@, callback: s.1 },
            ) =~= after);
            assert(after == subscribed(before, entry.combo, callback));
            assert forall|a: int, b: int| 0 <= a < b < after.len() implies after[a].combo
                != after[b].combo by {
                if b < before.len() {
                    assert(before[a].combo != before[b].combo);
                } else {
                    assert(!at_combo(before, entry.combo, a));
                }
            }
        }
        self.subscribers = subscribers;
    }

    /// Drops the subscription for `hotkey`, if there is one.
    pub fn unsubscribe(&mut self, hotkey: Hotkeys)
        ensures
            final(self)@ == unsubscribed(old(self)@, hotkey@),
    {
        proof {
            use_type_invariant(&*self);
        }
        let found = self.position(&hotkey);
        let ghost before = self@;
        match found {
            Some(i) => {
                proof {
                    let c = choose|c: int| at_combo(before, hotkey@, c);
                    if c < i {
                        assert(before[c].combo != before[i as int].combo);
                    } else if i < c {
                        assert(before[i as int].combo != before[c].combo);
                    }
                }
                let mut subscribers: Vec<(Hotkeys, Callback)> = Vec::new();
                std::mem::swap(&mut subscribers, &mut self.subscribers);
                subscribers.remove(i);
                proof {
                    let after = before.remove(i as int);
                    assert(subscribers@.map_values(
                        |s: (Hotkeys, Callback)| Subscription { combo: s.0@, callback: s.1 },
                    ) =~= after);
                    assert forall|a: int, b: int| 0 <= a < b < after.len() implies after[a].combo
                        != after[b].combo by {
                        let a0 = if a < i { a } else { a + 1 };
                        let b0 = if b < i { b } else { b + 1 };
                        assert(before[a0].combo != before[b0].combo);
                    }
                }
                self.subscribers = subscribers;
            },
            None => {},
        }
    }

    /// Drops every subscription.
    pub fn clear(&mut self)
        ensures
            final(self)@ == Seq::<Subscription>::empty(),
    {
        self.subscribers = Vec::new();
        assert(self@ =~= Seq::<Subscription>::empty());
    }

    /// The callbacks to invoke while exactly `keys` are down.
    pub fn pressed(&self, keys: &Vec<Keycode>) -> (r: Vec<Callback>)
        ensures
            r@ == fired(self@, keys@.to_set()),
    {
        let n: usize = self.subscribers.len();
        let mut out: Vec<Callback> = Vec::new();
        let mut i: usize = 0;
        assert(self@.subrange(0, 0) =~= Seq::<Subscription>::empty());
        while i < n
            invariant
                n == self.subscribers@.len(),
                i <= n,
                out@ == fired(self@.subrange(0, i as int), keys@.to_set()),
            decreases n - i,
        {
            proof {
                let next = self@.subrange(0, i + 1);
                assert(next.drop_last() =~= self@.subrange(0, i as int));
                assert(next.last() == self@[i as int]);
            }
            if self.subscribers[i].0.is_pressed(keys) {
                out.push(self.subscribers[i].1);
            }
            i += 1;
        }
        assert(self@.subrange(0, n as int) =~= self@);
        out
    }
}

impl Default for HotkeysListener {
    fn default() -> (r: HotkeysListener)
        ensures
            r@ == Seq::<Subscription>::empty(),
    {
        HotkeysListener::new()
    }
}

/// Superset matching. With a combination of two different keys subscribed
/// beside the combination of the first of them alone, pressing both keys
/// fires both callbacks, in the order subscribed, and pressing the first key
/// alone fires only the callback of the smaller combination.
pub proof fn lemma_superset_fires_both(a: Keycode, b: Keycode, x: Callback, y: Callback)
    requires
        a != b,
    ensures
        ({
            let subs = subscribed(
                subscribed(Seq::empty(), set![a, b], x),
                set![a],
                y,
            );
            &&& subs == seq![
                Subscription { combo: set![a, b], callback: x },
                Subscription { combo: set![a], callback: y },
            ]
            &&& fired(subs, set![a, b]) == seq![x, y]
            &&& fired(subs, set![a]) == seq![y]
        }),
{
    reveal_with_fuel(fired, 3);
    let first = Subscription { combo: set![a, b], callback: x };
    let second = Subscription { combo: set![a], callback: y };
    let one = subscribed(Seq::empty(), set![a, b], x);
    assert(one =~= seq![first]);
    assert(set![a, b].contains(b));
    assert(!set![a].contains(b));
    assert(set![a, b] != set![a]);
    assert forall|i: int| !at_combo(one, set![a], i) by {}
    let subs = subscribed(one, set![a], y);
    assert(subs =~= seq![first, second]);
    assert(subs.drop_last() =~= seq![first]);
    assert(seq![first].drop_last() =~= Seq::<Subscription>::empty());
    assert(set![a].subset_of(set![a, b]));
    assert(set![a, b].subset_of(set![a, b]));
    assert(!set![a, b].subset_of(set![a]));
    assert(fired(seq![first], set![a, b]) =~= seq![x]);
    assert(fired(seq![first], set![a]) =~= Seq::<Callback>::empty());
    assert(fired(subs, set![a, b]) =~= seq![x, y]);
    assert(fired(subs, set![a]) =~= seq![y]);
}

/// The names of a combination as it is configured: the text between the
/// commas.
pub fn split_keycodes(input: &str) -> (names: Vec<String>)
    ensures
        texts(names@) == split(input@, ','),
{
    split_on(input, ',')
}

/// Name `i` was refused, and every name before it was taken.
pub open spec fn first_refused(parsed: Seq<Result<Keycode, String>>, i: int) -> bool {
    &&& 0 <= i < parsed.len()
    &&& parsed[i] is Err
    &&& forall|j: int| 0 <= j < i ==> (#[trigger] parsed[j]) is Ok
}

/// Gathers the keys that the names of a combination stand for. `parsed` holds
/// for each name, in order, the key that the polling side reads it as, or
/// its refusal. The combination is the keys in order where every name was
/// taken; else the first refusal is the answer.
pub fn parse_keycodes(parsed: Vec<Result<Keycode, String>>) -> (r: Result<Vec<Keycode>, String>)
    ensures
        match r {
            Ok(keys) => {
                &&& keys@.len() == parsed@.len()
                &&& forall|i: int| 0 <= i < parsed@.len() ==> parsed@[i] == Ok::<Keycode, String>(keys@[i])
            },
            Err(message) => exists|i: int|
                first_refused(parsed@, i) && (#[trigger] parsed@[i])->Err_0@ == message@,
        },
{
    let n: usize = parsed.len();
    let mut keys: Vec<Keycode> = Vec::new();
    let mut i: usize = 0;
    while i < n
        invariant
            n == parsed@.len(),
            i <= n,
            keys@.len() == i,
            forall|k: int| 0 <= k < i ==> parsed@[k] == Ok::<Keycode, String>(keys@[k]),
        decreases n - i,
    {
        match &parsed[i] {
            Ok(key) => {
                keys.push(*key);
            },
            Err(message) => {
                assert(first_refused(parsed@, i as int));
                return Err(message.clone());
            },
        }
        i += 1;
    }
    Ok(keys)
}

/// The combination that a parsed setting stands for, if it was read.
pub open spec fn combo_of(parsed: Result<Vec<Keycode>, String>) -> Option<Set<Keycode>> {
    match parsed {
        Ok(keys) => Some(keys@.to_set()),
        Err(_) => None,
    }
}

/// The combination that takes over what was copied: left control and C.
pub open spec fn copy_combo() -> Set<Keycode> {
    seq![Keycode::LControl, Keycode::C].to_set()
}

/// The subscriptions that the settings ask for, added to `subs`: the
/// combination that shows the window, where it could be read, and the copy
/// combination after it.
pub open spec fn with_hotkeys(subs: Seq<Subscription>, show: Option<Set<Keycode>>) -> Seq<
    Subscription,
> {
    subscribed(
        match show {
            Some(combo) => subscribed(subs, combo, Callback::ShowWindow),
            None => subs,
        },
        copy_combo(),
        Callback::CopyToClipboard,
    )
}

/// Installs the subscriptions that the settings ask for. `show_app_hotkey` is
/// the parsed combination that shows the window; where it could not be read,
/// that subscription is left out.
pub fn handle_hotkeys(
    hotkeys_listener: &mut HotkeysListener,
    show_app_hotkey: Result<Vec<Keycode>, String>,
)
    ensures
        final(hotkeys_listener)@ == with_hotkeys(old(hotkeys_listener)@, combo_of(show_app_hotkey)),
{
    match show_app_hotkey {
        Ok(hotkeys) => {
            hotkeys_listener.subscribe(Hotkeys::new(hotkeys), Callback::ShowWindow);
        },
        Err(_) => {},
    }
    let mut copy_to_clipboard_hotkeys: Vec<Keycode> = Vec::new();
    copy_to_clipboard_hotkeys.push(Keycode::LControl);
    copy_to_clipboard_hotkeys.push(Keycode::C);
    assert(copy_to_clipboard_hotkeys@ =~= seq![Keycode::LControl, Keycode::C]);
    hotkeys_listener.subscribe(Hotkeys::new(copy_to_clipboard_hotkeys), Callback::CopyToClipboard);
}

/// The poller as plain values.
pub struct PollerView {
    /// The poll thread is meant to go on. Cleared to ask it to stop.
    pub listening: bool,
    /// A poll thread exists and has not acknowledged a stop.
    pub alive: bool,
    /// The keys that were down at the poll before.
    pub prev: Set<Keycode>,
    pub subs: Seq<Subscription>,
}

/// The hotkey poller: its two flags, the last reading, and the subscriptions.
#[derive(Debug)]
pub struct HotkeyPoller {
    listening: bool,
    alive: bool,
    prev_keys: Vec<Keycode>,
    listener: HotkeysListener,
}

impl View for HotkeyPoller {
    type V = PollerView;

    closed spec fn view(&self) -> PollerView {
        PollerView {
            listening: self.listening,
            alive: self.alive,
            prev: self.prev_keys@.to_set(),
            subs: self.listener@,
        }
    }
}

/// The poller before anything ran: stopped, with no subscriptions.
pub open spec fn stopped_poller() -> PollerView {
    PollerView { listening: false, alive: false, prev: Set::empty(), subs: Seq::empty() }
}

impl HotkeyPoller {
    /// The poller before anything ran.
    pub fn new() -> (r: HotkeyPoller)
        ensures
            r@ == stopped_poller(),
    {
        let r = HotkeyPoller {
            listening: false,
            alive: false,
            prev_keys: Vec::new(),
            listener: HotkeysListener::new(),
        };
        assert(r@.prev =~= Set::<Keycode>::empty());
        r
    }

    /// Whether a poll thread exists that has not acknowledged a stop.
    pub fn alive(&self) -> (r: bool)
        ensures
            r == self@.alive,
    {
        self.alive
    }

    /// The subscriptions.
    pub fn listener(&self) -> (r: &HotkeysListener)
        ensures
            r@ == self@.subs,
    {
        &self.listener
    }
}

/// Whether the poll thread is meant to go on.
pub fn hotkey_listener(poller: &HotkeyPoller) -> (r: bool)
    ensures
        r == poller@.listening,
{
    poller.listening
}

/// Tells the poll thread to go on, or asks it to stop.
pub fn set_hotkey_listener(poller: &mut HotkeyPoller, state: bool)
    ensures
        final(poller)@ == (PollerView { listening: state, ..old(poller)@ }),
{
    poller.listening = state;
}

/// What the poll thread does after a step.
#[derive(Debug, PartialEq, Eq)]
pub enum PollStep {
    /// A stop was asked for and is hereby acknowledged: signal the waiting
    /// caller and end the thread.
    Exit,
    /// Invoke these callbacks, in order, and poll again after the interval.
    Continue(Vec<Callback>),
}

/// The callbacks that a reading fires: none where no key is down or the same
/// keys were down at the poll before, else those of every subscription whose
/// combination is pressed.
pub open spec fn poll_fires(p: PollerView, keys: Seq<Keycode>) -> Seq<Callback> {
    if keys.len() > 0 && keys.to_set() != p.prev {
        fired(p.subs, keys.to_set())
    } else {
        Seq::empty()
    }
}

/// The poller after a step of its thread that read `keys`.
pub open spec fn polled(p: PollerView, keys: Seq<Keycode>) -> PollerView {
    if p.listening {
        PollerView { prev: keys.to_set(), ..p }
    } else {
        PollerView { alive: false, ..p }
    }
}

/// One step of the poll thread, with the keys that are down now. Where a stop
/// was asked for, the step acknowledges it and reads nothing. Else the
/// reading is compared with the one before and becomes the one before.
pub fn listen(poller: &mut HotkeyPoller, keys: Vec<Keycode>) -> (r: PollStep)
    ensures
        final(poller)@ == polled(old(poller)@, keys@),
        match r {
            PollStep::Exit => !old(poller)@.listening,
            PollStep::Continue(callbacks) => old(poller)@.listening && callbacks@ == poll_fires(
                old(poller)@,
                keys@,
            ),
        },
{
    if !hotkey_listener(poller) {
        poller.alive = false;
        return PollStep::Exit;
    }
    let callbacks = if keys.is_empty() || same_keys(&keys, &poller.prev_keys) {
        Vec::new()
    } else {
        poller.listener.pressed(&keys)
    };
    poller.prev_keys = keys;
    PollStep::Continue(callbacks)
}

/// What the caller of `run` does next.
#[derive(Clone, Copy, Debug, PartialEq, Eq, Structural)]
pub enum RunStep {
    /// A poll thread is alive and was asked to stop: wait for its
    /// acknowledgement, then call `run` again.
    Wait,
    /// The subscriptions are rebuilt and the poller counts as running: start
    /// the poll thread.
    Started,
}

/// The poller after a call of `run`. While a poll thread is alive it is only
/// asked to stop, and nothing else is touched. Once none is alive, the
/// subscriptions are dropped and rebuilt from the settings, the last reading
/// is forgotten, and the poller is running.
pub open spec fn restarted(p: PollerView, show: Option<Set<Keycode>>) -> PollerView {
    if p.alive {
        PollerView { listening: false, ..p }
    } else {
        PollerView {
            listening: true,
            alive: true,
            prev: Set::empty(),
            subs: with_hotkeys(Seq::empty(), show),
        }
    }
}

/// Restarts the poller with the subscriptions that the settings ask for; see
/// `restarted`. `show_app_hotkey` is the parsed combination that shows the
/// window.
pub fn run(poller: &mut HotkeyPoller, show_app_hotkey: Result<Vec<Keycode>, String>) -> (r: RunStep)
    ensures
        final(poller)@ == restarted(old(poller)@, combo_of(show_app_hotkey)),
        r == if old(poller)@.alive {
            RunStep::Wait
        } else {
            RunStep::Started
        },
{
    if poller.alive {
        set_hotkey_listener(poller, false);
        return RunStep::Wait;
    }
    poller.listener.clear();
    handle_hotkeys(&mut poller.listener, show_app_hotkey);
    poller.prev_keys = Vec::new();
    poller.alive = true;
    poller.listening = true;
    assert(poller@.prev =~= Set::<Keycode>::empty());
    RunStep::Started
}

/// The subscriptions change only while no poll thread is alive.
pub proof fn lemma_rebuild_only_when_stopped(p: PollerView, show: Option<Set<Keycode>>)
    requires
        p.alive,
    ensures
        restarted(p, show).subs == p.subs,
        restarted(p, show).alive,
        !restarted(p, show).listening,
{
}

/// The restart handshake. A running poller that is asked to restart is first
/// asked to stop; the next step of its thread acknowledges and leaves the
/// subscriptions alone; the restart that follows rebuilds them from the
/// settings and leaves the poller running with no reading remembered.
pub proof fn lemma_restart_handshake(p: PollerView, keys: Seq<Keycode>, show: Option<Set<Keycode>>)
    requires
        p.alive,
    ensures
        ({
            let asked = restarted(p, show);
            let acknowledged = polled(asked, keys);
            let rebuilt = restarted(acknowledged, show);
            &&& !asked.listening && asked.alive && asked.subs == p.subs
            &&& !acknowledged.alive && acknowledged.subs == p.subs
            &&& rebuilt == PollerView {
                listening: true,
                alive: true,
                prev: Set::empty(),
                subs: with_hotkeys(Seq::empty(), show),
            }
        }),
{
}

/// A poller that is stopped restarts at once, without a wait.
pub proof fn lemma_restart_from_stopped(p: PollerView, show: Option<Set<Keycode>>)
    requires
        !p.alive,
    ensures
        restarted(p, show).alive,
        restarted(p, show).listening,
        restarted(p, show).subs == with_hotkeys(Seq::empty(), show),
{
}

} // verus!
