//! The flags and the rule set that every input path consults.
//!
//! One value of `SharedGate` stands for the whole process. The caller keeps it
//! behind its lock and hands it to the decisions of this crate for the length
//! of one read or one change.

use vstd::prelude::*;
use vstd::string::*;
use crate::common::Rule;
use crate::rules::UserAutoReplMap;

verus! {

/// The shared state as plain values.
pub struct GateView {
    /// A synthetic burst of this process is in flight.
    pub sending: bool,
    /// The foreground application is not blacklisted.
    pub app_active: bool,
    /// The foreground window covers the screen.
    pub fullscreen: bool,
    /// The live rules, in order.
    pub rules: Seq<Rule>,
}

/// The trigger of the rule that is there before any configuration is loaded.
pub open spec fn sample_trigger() -> Seq<char> {
    seq!['<', '3']
}

/// The replacement of that rule: a heavy black heart with its emoji selector.
pub open spec fn sample_replacement() -> Seq<char> {
    seq!['\u{2764}', '\u{fe0f}']
}

/// The shared state of a fresh process: nothing is being sent, the application counts
/// as active and the foreground as fullscreen until the window watch says
/// otherwise, and the one sample rule is in place.
pub open spec fn fresh_gate() -> GateView {
    GateView {
        sending: false,
        app_active: true,
        fullscreen: true,
        rules: seq![Rule { trigger: sample_trigger(), replacement: sample_replacement() }],
    }
}

/// The flags and the rules that every input path consults.
#[derive(Debug, PartialEq, Eq)]
pub struct SharedGate {
    sending: bool,
    app_active: bool,
    fullscreen: bool,
    rules: UserAutoReplMap,
}

impl View for SharedGate {
    type V = GateView;

    closed spec fn view(&self) -> GateView {
        GateView {
            sending: self.sending,
            app_active: self.app_active,
            fullscreen: self.fullscreen,
            rules: self.rules@,
        }
    }
}

impl SharedGate {
    /// The shared state of a fresh process.
    pub fn new() -> (gate: SharedGate)
        ensures
            gate@ == fresh_gate(),
    {
        let mut rules = UserAutoReplMap::new();
        proof {
            reveal_strlit("<3");
            reveal_strlit("\u{2764}\u{fe0f}");
        }
        let key = "<3".to_owned();
        let value = "\u{2764}\u{fe0f}".to_owned();
        assert(key@ =~= sample_trigger());
        assert(value@ =~= sample_replacement());
        rules.insert(key, value);
        assert(rules@ =~= seq![
            Rule { trigger: sample_trigger(), replacement: sample_replacement() },
        ]);
        SharedGate { sending: false, app_active: true, fullscreen: true, rules }
    }

    /// Whether a synthetic burst of this process is in flight.
    pub fn sending(&self) -> (r: bool)
        ensures
            r == self@.sending,
    {
        self.sending
    }

    /// Raises or clears the suppression flag.
    pub fn set_sending(&mut self, value: bool)
        ensures
            final(self)@ == (GateView { sending: value, ..old(self)@ }),
    {
        self.sending = value;
    }

    /// Whether the foreground application is not blacklisted.
    pub fn app_active(&self) -> (r: bool)
        ensures
            r == self@.app_active,
    {
        self.app_active
    }

    /// Switches the application on or off.
    pub fn set_app_active(&mut self, value: bool)
        ensures
            final(self)@ == (GateView { app_active: value, ..old(self)@ }),
    {
        self.app_active = value;
    }

    /// Whether the foreground window covers the screen.
    pub fn fullscreen(&self) -> (r: bool)
        ensures
            r == self@.fullscreen,
    {
        self.fullscreen
    }

    /// Records whether the foreground window covers the screen.
    pub fn set_fullscreen(&mut self, value: bool)
        ensures
            final(self)@ == (GateView { fullscreen: value, ..old(self)@ }),
    {
        self.fullscreen = value;
    }

    /// The live rules.
    pub fn rules(&self) -> (r: &UserAutoReplMap)
        ensures
            r@ == self@.rules,
    {
        &self.rules
    }

    /// Swaps the whole rule set.
    pub fn set_rules(&mut self, rules: UserAutoReplMap)
        ensures
            final(self)@ == (GateView { rules: rules@, ..old(self)@ }),
    {
        self.rules = rules;
    }
}

} // verus!
