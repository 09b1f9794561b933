//! The replacement buffer, the filter in front of it, and the engine that
//! turns a match into an erase-and-retype order.
//!
//! Every key press that the capture loop receives either leaves the buffer
//! alone, clears it, or appends one observation and asks the engine. The
//! engine reads the buffer as one text. When a trigger occurs in it, the
//! buffer is emptied at once and the order is handed back to the caller, who
//! plays it on another thread.

use vstd::prelude::*;
use vstd::string::*;
use crate::common::{KeyValue, Rule};
use crate::gate::{fresh_gate, GateView, SharedGate};
use crate::keys::{poll_key_of, Key};
use crate::rules::{load_rules, matched_rule, UserAutoReplMap};
use crate::text::{
    ascii_control,
    ascii_punctuation,
    chars_of,
    is_ascii_control,
    is_ascii_punctuation,
    unicode_alphanumeric,
    unicode_whitespace,
};

verus! {

/// What kind of input event was observed.
#[derive(Clone, Copy, Debug, PartialEq, Eq, Structural)]
pub enum EventType {
    KeyPress(Key),
    KeyRelease(Key),
    ButtonPress,
    ButtonRelease,
    MouseMove,
    Wheel,
}

/// An input event: its kind, and the text that the press resolves to under
/// the current layout, where it resolves to any.
#[derive(Debug, PartialEq, Eq)]
pub struct Event {
    pub name: Option<String>,
    pub event_type: EventType,
}

/// An input event as plain values.
pub struct EventView {
    pub name: Option<Seq<char>>,
    pub event_type: EventType,
}

impl View for Event {
    type V = EventView;

    open spec fn view(&self) -> EventView {
        EventView {
            name: match self.name {
                Some(s) => Some(s@),
                None => None,
            },
            event_type: self.event_type,
        }
    }
}

/// An observation in the buffer: the event, and the locale tag that was
/// current when it came (empty where unknown).
#[derive(Debug, PartialEq, Eq)]
pub struct KeyEvent {
    event: Event,
    locale: String,
}

/// An observation as plain values.
pub struct KeyEventView {
    pub event: EventView,
    pub locale: Seq<char>,
}

impl View for KeyEvent {
    type V = KeyEventView;

    closed spec fn view(&self) -> KeyEventView {
        KeyEventView { event: self.event@, locale: self.locale@ }
    }
}

/// The order that a match hands to the sender: how many characters to erase,
/// and the text to type in their place.
#[derive(Debug, PartialEq, Eq)]
pub struct Replacement {
    pub backspaces: usize,
    pub text: String,
}

/// An order as plain values.
pub struct ReplacementView {
    pub backspaces: nat,
    pub text: Seq<char>,
}

impl View for Replacement {
    type V = ReplacementView;

    open spec fn view(&self) -> ReplacementView {
        ReplacementView { backspaces: self.backspaces as nat, text: self.text@ }
    }
}

/// An optional order, taken by its view.
pub open spec fn order_view(r: Option<Replacement>) -> Option<ReplacementView> {
    match r {
        Some(x) => Some(x@),
        None => None,
    }
}

/// The letter keys.
pub open spec fn is_letter(key: Key) -> bool {
    match key {
        Key::KeyA
        | Key::KeyB
        | Key::KeyC
        | Key::KeyD
        | Key::KeyE
        | Key::KeyF
        | Key::KeyG
        | Key::KeyH
        | Key::KeyI
        | Key::KeyJ
        | Key::KeyK
        | Key::KeyL
        | Key::KeyM
        | Key::KeyN
        | Key::KeyO
        | Key::KeyP
        | Key::KeyQ
        | Key::KeyR
        | Key::KeyS
        | Key::KeyT
        | Key::KeyU
        | Key::KeyV
        | Key::KeyW
        | Key::KeyX
        | Key::KeyY
        | Key::KeyZ => true,
        _ => false,
    }
}

/// The punctuation keys and the space bar that may extend the buffer.
pub open spec fn is_extra(key: Key) -> bool {
    match key {
        Key::LeftBracket
        | Key::RightBracket
        | Key::SemiColon
        | Key::Quote
        | Key::Comma
        | Key::Dot
        | Key::BackSlash
        | Key::Slash
        | Key::Space => true,
        _ => false,
    }
}

/// The number row, from the backtick to the equals sign.
pub open spec fn is_number_row(key: Key) -> bool {
    match key {
        Key::BackQuote
        | Key::Num1
        | Key::Num2
        | Key::Num3
        | Key::Num4
        | Key::Num5
        | Key::Num6
        | Key::Num7
        | Key::Num8
        | Key::Num9
        | Key::Num0
        | Key::Minus
        | Key::Equal => true,
        _ => false,
    }
}

/// A candidate key: a press of it may extend the buffer. Every other key
/// starts something new and clears it.
pub open spec fn is_candidate(key: Key) -> bool {
    is_letter(key) || is_extra(key) || is_number_row(key)
}

/// Whether `key` is a candidate key.
pub fn is_candidate_key(key: Key) -> (r: bool)
    ensures
        r == is_candidate(key),
{
    match key {
        Key::KeyA
        | Key::KeyB
        | Key::KeyC
        | Key::KeyD
        | Key::KeyE
        | Key::KeyF
        | Key::KeyG
        | Key::KeyH
        | Key::KeyI
        | Key::KeyJ
        | Key::KeyK
        | Key::KeyL
        | Key::KeyM
        | Key::KeyN
        | Key::KeyO
        | Key::KeyP
        | Key::KeyQ
        | Key::KeyR
        | Key::KeyS
        | Key::KeyT
        | Key::KeyU
        | Key::KeyV
        | Key::KeyW
        | Key::KeyX
        | Key::KeyY
        | Key::KeyZ => true,
        Key::LeftBracket
        | Key::RightBracket
        | Key::SemiColon
        | Key::Quote
        | Key::Comma
        | Key::Dot
        | Key::BackSlash
        | Key::Slash
        | Key::Space => true,
        Key::BackQuote
        | Key::Num1
        | Key::Num2
        | Key::Num3
        | Key::Num4
        | Key::Num5
        | Key::Num6
        | Key::Num7
        | Key::Num8
        | Key::Num9
        | Key::Num0
        | Key::Minus
        | Key::Equal => true,
        _ => false,
    }
}

/// Every candidate key is known to the polling side too.
pub proof fn lemma_candidates_translate(key: Key)
    requires
        is_candidate(key),
    ensures
        poll_key_of(key) is Some,
{
}

/// Some character of `s` is an ASCII control character.
pub open spec fn has_control(s: Seq<char>) -> bool {
    exists|i: int| 0 <= i < s.len() && ascii_control(s[i])
}

/// A character that may stand in a resolved text beside a control character:
/// alphanumeric, ASCII punctuation, or whitespace.
pub open spec fn plain_char(c: char) -> bool {
    unicode_alphanumeric(c) || ascii_punctuation(c) || unicode_whitespace(c)
}

/// Every character of `s` is plain.
pub open spec fn all_plain(s: Seq<char>) -> bool {
    forall|i: int| 0 <= i < s.len() ==> plain_char(s[i])
}

/// A resolved text is accepted unless it holds a control character beside a
/// character that is not plain.
pub open spec fn valid_key_name(s: Seq<char>) -> bool {
    !has_control(s) || all_plain(s)
}

/// Whether `s` holds an ASCII control character.
pub fn contains_escape_string(s: &str) -> (r: bool)
    ensures
        r == has_control(s@),
{
    let n: usize = s.unicode_len();
    let mut i: usize = 0;
    while i < n
        invariant
            n == s@.len(),
            i <= n,
            forall|k: int| 0 <= k < i ==> !ascii_control(s@[k]),
        decreases n - i,
    {
        if is_ascii_control(s.get_char(i)) {
            return true;
        }
        i += 1;
    }
    false
}

/// Whether every character of `s` is plain.
fn is_all_plain(s: &str) -> (r: bool)
    ensures
        r == all_plain(s@),
{
    let n: usize = s.unicode_len();
    let mut i: usize = 0;
    while i < n
        invariant
            n == s@.len(),
            i <= n,
            forall|k: int| 0 <= k < i ==> plain_char(s@[k]),
        decreases n - i,
    {
        let c: char = s.get_char(i);
        if !(c.is_alphanumeric() || is_ascii_punctuation(c) || c.is_whitespace()) {
            return false;
        }
        i += 1;
    }
    true
}

/// Whether the capture loop accepts `name` as a resolved text.
pub fn is_valid_key_name(name: &String) -> (r: bool)
    ensures
        r == valid_key_name(name@),
{
    !contains_escape_string(name.as_str()) || is_all_plain(name.as_str())
}

/// The text of one observation: its resolved text, or nothing.
pub open spec fn name_text(e: KeyEventView) -> Seq<char> {
    match e.event.name {
        Some(n) => n,
        None => Seq::empty(),
    }
}

/// The buffer read as one text: the resolved texts in the order typed.
pub open spec fn log_text(log: Seq<KeyEventView>) -> Seq<char>
    decreases log.len(),
{
    if log.len() == 0 {
        Seq::empty()
    } else {
        log_text(log.drop_last()) + name_text(log.last())
    }
}

/// An observation that passed the filter: a press of a candidate key with an
/// accepted resolved text.
pub open spec fn accepted(e: KeyEventView) -> bool {
    &&& e.event.event_type matches EventType::KeyPress(k) && is_candidate(k)
    &&& e.event.name matches Some(n) && valid_key_name(n)
}

/// The replacement buffer.
#[derive(Debug, PartialEq, Eq)]
pub struct KeyLog {
    keys: Vec<KeyEvent>,
}

impl View for KeyLog {
    type V = Seq<KeyEventView>;

    closed spec fn view(&self) -> Seq<KeyEventView> {
        self.keys@.map_values(|e: KeyEvent| e@)
    }
}

/// Every observation passed the filter.
pub open spec fn all_accepted(log: Seq<KeyEventView>) -> bool {
    forall|i: int| 0 <= i < log.len() ==> accepted(#[trigger] log[i])
}

impl KeyLog {
    /// The buffer holds only observations that passed the filter.
    #[verifier::type_invariant]
    closed spec fn filtered(self) -> bool {
        all_accepted(self@)
    }

    /// Reads off that the buffer holds only observations that passed the
    /// filter.
    pub fn observations_are_accepted(&self)
        ensures
            all_accepted(self@),
    {
        proof {
            use_type_invariant(self);
        }
    }

    /// How many observations the buffer holds.
    pub fn len(&self) -> (n: usize)
        ensures
            n == self@.len(),
    {
        self.keys.len()
    }

    /// The locale tag of observation `i`, if there are that many.
    pub fn locale(&self, i: usize) -> (r: Option<String>)
        ensures
            match r {
                Some(tag) => i < self@.len() && tag@ == self@[i as int].locale,
                None => i >= self@.len(),
            },
    {
        if i < self.keys.len() {
            Some(self.keys[i].locale.clone())
        } else {
            None
        }
    }

    /// The event kind of observation `i`, if there are that many.
    pub fn event_type(&self, i: usize) -> (r: Option<EventType>)
        ensures
            match r {
                Some(kind) => i < self@.len() && kind == self@[i as int].event.event_type,
                None => i >= self@.len(),
            },
    {
        if i < self.keys.len() {
            Some(self.keys[i].event.event_type)
        } else {
            None
        }
    }

    /// Appends one observation that passed the filter.
    fn push(&mut self, event: Event, locale: String)
        requires
            accepted(KeyEventView { event: event@, locale: locale@ }),
        ensures
            final(self)@ == old(self)@.push(KeyEventView { event: event@, locale: locale@ }),
    {
        proof {
            use_type_invariant(&*self);
        }
        let ghost before = self@;
        let ghost added = KeyEventView { event: event@, locale: locale@ };
        let mut keys: Vec<KeyEvent> = Vec::new();
        std::mem::swap(&mut keys, &mut self.keys);
        keys.push(KeyEvent { event, locale });
        proof {
            assert(keys@.map_values(|e: KeyEvent| e@) =~= before.push(added));
        }
        self.keys = keys;
    }
}

impl Default for KeyLog {
    fn default() -> (log: KeyLog)
        ensures
            log@ == Seq::<KeyEventView>::empty(),
    {
        let log = KeyLog { keys: Vec::new() };
        assert(log@ =~= Seq::<KeyEventView>::empty());
        log
    }
}

/// The empty buffer.
pub fn initialize_key_log() -> (log: KeyLog)
    ensures
        log@ == Seq::<KeyEventView>::empty(),
{
    KeyLog::default()
}

/// Empties the buffer.
pub fn clear_key_log(log: &mut KeyLog)
    ensures
        final(log)@ == Seq::<KeyEventView>::empty(),
{
    log.keys = Vec::new();
    assert(log@ =~= Seq::<KeyEventView>::empty());
}

/// The buffer as one text; nothing for the empty buffer.
pub fn auto_repl_buffer_string(log: &KeyLog) -> (r: Option<String>)
    ensures
        match r {
            Some(s) => log@.len() > 0 && s@ == log_text(log@),
            None => log@.len() == 0,
        },
{
    if log.keys.is_empty() {
        return None;
    }
    let n: usize = log.keys.len();
    let mut text = String::new();
    let mut i: usize = 0;
    assert(log@.subrange(0, 0) =~= Seq::<KeyEventView>::empty());
    while i < n
        invariant
            n == log.keys@.len(),
            n == log@.len(),
            i <= n,
            text@ == log_text(log@.subrange(0, i as int)),
        decreases n - i,
    {
        proof {
            let next = log@.subrange(0, i + 1);
            assert(next.drop_last() =~= log@.subrange(0, i as int));
            assert(next.last() == log@[i as int]);
            assert(log@[i as int] == log.keys@[i as int]@);
        }
        match &log.keys[i].event.name {
            Some(name) => {
                text.append(name.as_str());
            },
            None => {
                assert(text@ + Seq::<char>::empty() =~= text@);
            },
        }
        i += 1;
    }
    assert(log@.subrange(0, n as int) =~= log@);
    Some(text)
}

/// The rule set of a fresh process: the one sample rule.
pub fn initialize_auto_repl_map() -> (gate: SharedGate)
    ensures
        gate@ == fresh_gate(),
{
    SharedGate::new()
}

/// Whether no rule is configured.
pub fn is_user_auto_repl_map_empty(gate: &SharedGate) -> (r: bool)
    ensures
        r == (gate@.rules.len() == 0),
{
    gate.rules().is_empty()
}

/// The configured items, each taken by its view.
pub open spec fn items_view(items: Seq<KeyValue>) -> Seq<Rule> {
    items.map_values(|kv: KeyValue| kv@)
}

/// Replaces the rule set by the rules of `new_data`, set one after another.
/// Where a trigger comes twice, the later text stands at the earlier place.
pub fn set_auto_replacement_data(gate: &mut SharedGate, new_data: Vec<KeyValue>)
    ensures
        final(gate)@ == (GateView { rules: load_rules(items_view(new_data@)), ..old(gate)@ }),
{
    let mut map = UserAutoReplMap::new();
    let n: usize = new_data.len();
    let mut i: usize = 0;
    assert(items_view(new_data@).subrange(0, 0) =~= Seq::<Rule>::empty());
    while i < n
        invariant
            n == new_data@.len(),
            i <= n,
            map@ == load_rules(items_view(new_data@).subrange(0, i as int)),
        decreases n - i,
    {
        proof {
            let next = items_view(new_data@).subrange(0, i + 1);
            assert(next.drop_last() =~= items_view(new_data@).subrange(0, i as int));
            assert(next.last() == new_data@[i as int]@);
        }
        map.insert(new_data[i].key.clone(), new_data[i].value.clone());
        i += 1;
    }
    assert(items_view(new_data@).subrange(0, n as int) =~= items_view(new_data@));
    gate.set_rules(map);
}

/// A copy of the rule set as configured items, in order.
fn rules_as_items(gate: &SharedGate) -> (r: Vec<KeyValue>)
    ensures
        items_view(r@) == gate@.rules,
{
    let n: usize = gate.rules().len();
    let mut out: Vec<KeyValue> = Vec::new();
    let mut i: usize = 0;
    while i < n
        invariant
            n == gate@.rules.len(),
            i <= n,
            out@.len() == i,
            forall|k: int| 0 <= k < i ==> (#[trigger] out@[k])@ == gate@.rules[k],
        decreases n - i,
    {
        out.push(gate.rules().rule_at(i));
        i += 1;
    }
    assert(items_view(out@) =~= gate@.rules);
    out
}

/// Takes the outcome of reading the stored rules. What was read becomes the
/// rule set and nothing is to be written. Where nothing could be read the
/// rules stay, and a copy of them is returned to be written back.
pub fn update_auto_replace_data(gate: &mut SharedGate, loaded: Option<Vec<KeyValue>>) -> (rewrite:
    Option<Vec<KeyValue>>)
    ensures
        final(gate)@ == match loaded {
            Some(data) => GateView { rules: load_rules(items_view(data@)), ..old(gate)@ },
            None => old(gate)@,
        },
        match rewrite {
            Some(items) => loaded is None && items_view(items@) == old(gate)@.rules,
            None => loaded is Some,
        },
{
    match loaded {
        Some(data) => {
            set_auto_replacement_data(gate, data);
            None
        },
        None => Some(rules_as_items(gate)),
    }
}

/// Whether a synthetic burst of this process is in flight.
pub fn is_sending(gate: &SharedGate) -> (r: bool)
    ensures
        r == gate@.sending,
{
    gate.sending()
}

/// Raises or clears the suppression flag.
pub fn set_is_sending(gate: &mut SharedGate, value: bool)
    ensures
        final(gate)@ == (GateView { sending: value, ..old(gate)@ }),
{
    gate.set_sending(value);
}

/// What the engine does to a buffer. The empty buffer is left alone. Where a
/// rule fires on the text of the buffer, the buffer is emptied and the order
/// is to erase as many characters as the trigger has and to type the
/// replacement. Where none fires, the buffer stays.
pub open spec fn engine(rules: Seq<Rule>, log: Seq<KeyEventView>) -> (
    Seq<KeyEventView>,
    Option<ReplacementView>,
) {
    if log.len() == 0 {
        (log, None)
    } else {
        match matched_rule(rules, log_text(log)) {
            Some(i) => (
                Seq::empty(),
                Some(
                    ReplacementView {
                        backspaces: rules[i].trigger.len(),
                        text: rules[i].replacement,
                    },
                ),
            ),
            None => (log, None),
        }
    }
}

/// Runs the engine on the buffer.
pub fn handle_auto_replacement(gate: &SharedGate, log: &mut KeyLog) -> (r: Option<Replacement>)
    ensures
        (final(log)@, order_view(r)) == engine(gate@.rules, old(log)@),
{
    match auto_repl_buffer_string(log) {
        None => None,
        Some(buf) => {
            let text = chars_of(buf.as_str());
            match gate.rules().find_match(&text) {
                None => None,
                Some(i) => {
                    let rule = gate.rules().rule_at(i);
                    clear_key_log(log);
                    let backspaces: usize = rule.key.as_str().unicode_len();
                    Some(Replacement { backspaces, text: rule.value })
                },
            }
        },
    }
}

/// What a press of `key` does: a key that is no candidate clears the buffer;
/// a press without resolved text, or with one that is not accepted, changes
/// nothing; any other press is appended and the engine runs.
pub open spec fn record(
    rules: Seq<Rule>,
    log: Seq<KeyEventView>,
    key: Key,
    event: EventView,
    locale: Seq<char>,
) -> (Seq<KeyEventView>, Option<ReplacementView>) {
    if !is_candidate(key) {
        (Seq::empty(), None)
    } else {
        match event.name {
            None => (log, None),
            Some(name) => if !valid_key_name(name) {
                (log, None)
            } else {
                engine(rules, log.push(KeyEventView { event, locale }))
            },
        }
    }
}

/// Files a key press: see `record`.
fn save_auto_replacement_log(
    gate: &SharedGate,
    log: &mut KeyLog,
    key: &Key,
    event: Event,
    locale: String,
) -> (r: Option<Replacement>)
    requires
        event.event_type == EventType::KeyPress(*key),
    ensures
        (final(log)@, order_view(r)) == record(gate@.rules, old(log)@, *key, event@, locale@),
{
    if !is_candidate_key(*key) {
        clear_key_log(log);
        return None;
    }
    match &event.name {
        Some(name) => {
            if !is_valid_key_name(name) {
                return None;
            }
        },
        None => {
            return None;
        },
    }
    log.push(event, locale);
    handle_auto_replacement(gate, log)
}

/// What an event does to the buffer. While a burst is in flight, or while no
/// rule is configured, nothing. Otherwise a key press is filed, and every
/// other event is ignored.
pub open spec fn capture(
    gate: GateView,
    log: Seq<KeyEventView>,
    event: EventView,
    locale: Seq<char>,
) -> (Seq<KeyEventView>, Option<ReplacementView>) {
    if gate.sending || gate.rules.len() == 0 {
        (log, None)
    } else {
        match event.event_type {
            EventType::KeyPress(key) => record(gate.rules, log, key, event, locale),
            _ => (log, None),
        }
    }
}

/// Takes one event of the capture loop, with the locale tag that is current.
/// Returns the order to play where the event completed a trigger.
pub fn handle_event(gate: &SharedGate, log: &mut KeyLog, event: Event, locale: String) -> (r:
    Option<Replacement>)
    ensures
        (final(log)@, order_view(r)) == capture(gate@, old(log)@, event@, locale@),
{
    if is_sending(gate) || is_user_auto_repl_map_empty(gate) {
        return None;
    }
    if let EventType::KeyPress(key) = event.event_type {
        save_auto_replacement_log(gate, log, &key, event, locale)
    } else {
        None
    }
}

/// What the listener does with an event: nothing while the foreground
/// application is blacklisted, else what `capture` says.
pub open spec fn listen(
    gate: GateView,
    log: Seq<KeyEventView>,
    event: EventView,
    locale: Seq<char>,
) -> (Seq<KeyEventView>, Option<ReplacementView>) {
    if gate.app_active {
        capture(gate, log, event, locale)
    } else {
        (log, None)
    }
}

/// The body of the key listener: one call for every event that the hook
/// delivers.
pub fn enable_key_listener(
    gate: &SharedGate,
    log: &mut KeyLog,
    event: Event,
    locale: String,
) -> (r: Option<Replacement>)
    ensures
        (final(log)@, order_view(r)) == listen(gate@, old(log)@, event@, locale@),
{
    if gate.app_active() {
        handle_event(gate, log, event, locale)
    } else {
        None
    }
}

} // verus!
