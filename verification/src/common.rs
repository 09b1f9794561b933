//! Plain records shared by the modules.

use vstd::prelude::*;

verus! {

/// One replacement rule as it is configured: the trigger under `key`, the
/// text that replaces it under `value`.
#[derive(Debug, PartialEq, Eq)]
pub struct KeyValue {
    pub key: String,
    pub value: String,
}

/// A replacement rule as a pair of character sequences.
pub struct Rule {
    pub trigger: Seq<char>,
    pub replacement: Seq<char>,
}

impl View for KeyValue {
    type V = Rule;

    open spec fn view(&self) -> Rule {
        Rule { trigger: self.key@, replacement: self.value@ }
    }
}

impl Clone for KeyValue {
    fn clone(&self) -> (r: KeyValue)
        ensures
            r@ == self@,
    {
        KeyValue { key: self.key.clone(), value: self.value.clone() }
    }
}

} // verus!
