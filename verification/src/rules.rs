//! The live replacement rules: triggers, each with the text that replaces it.
//!
//! Rules are kept in the order in which their triggers first came, and no
//! trigger occurs twice. Of the rules whose trigger occurs in a text, the one
//! with the longest trigger wins; among equally long triggers the one that
//! came first wins.

use vstd::prelude::*;
use vstd::string::*;
use crate::common::{KeyValue, Rule};
use crate::text::{chars_of, contains_chars, is_substring, same_text};

verus! {

/// No trigger occurs twice.
pub open spec fn distinct_triggers(rules: Seq<Rule>) -> bool {
    forall|i: int, j: int|
        0 <= i < j < rules.len() ==> (#[trigger] rules[i]).trigger != (#[trigger] rules[j]).trigger
}

/// Rule `i` has trigger `trigger`.
pub open spec fn at_trigger(rules: Seq<Rule>, trigger: Seq<char>, i: int) -> bool {
    0 <= i < rules.len() && rules[i].trigger == trigger
}

/// The rules after `trigger` was set to `replacement`: an existing rule keeps
/// its place and takes the new text, a new rule goes to the end.
pub open spec fn insert_rule(rules: Seq<Rule>, trigger: Seq<char>, replacement: Seq<char>) -> Seq<
    Rule,
> {
    if exists|i: int| at_trigger(rules, trigger, i) {
        rules.update(choose|i: int| at_trigger(rules, trigger, i), Rule { trigger, replacement })
    } else {
        rules.push(Rule { trigger, replacement })
    }
}

/// The rules that result from setting `items` one after another, starting
/// with none.
pub open spec fn load_rules(items: Seq<Rule>) -> Seq<Rule>
    decreases items.len(),
{
    if items.len() == 0 {
        Seq::empty()
    } else {
        insert_rule(load_rules(items.drop_last()), items.last().trigger, items.last().replacement)
    }
}

/// Rule `i` matches `text`: its trigger occurs somewhere in it.
pub open spec fn rule_matches(rules: Seq<Rule>, text: Seq<char>, i: int) -> bool {
    0 <= i < rules.len() && is_substring(text, rules[i].trigger)
}

/// Rule `i` is the one that fires on `text`: it matches, no matching rule has
/// a longer trigger, and no matching rule with an equally long trigger stands
/// before it.
pub open spec fn wins(rules: Seq<Rule>, text: Seq<char>, i: int) -> bool {
    &&& rule_matches(rules, text, i)
    &&& forall|j: int| #[trigger]
        rule_matches(rules, text, j) ==> {
            ||| rules[j].trigger.len() < rules[i].trigger.len()
            ||| (rules[j].trigger.len() == rules[i].trigger.len() && i <= j)
        }
}

/// The index of the rule that fires on `text`, if any rule matches.
pub open spec fn matched_rule(rules: Seq<Rule>, text: Seq<char>) -> Option<int> {
    if exists|i: int| wins(rules, text, i) {
        Some(choose|i: int| wins(rules, text, i))
    } else {
        None
    }
}

/// At most one rule fires on a text.
pub proof fn lemma_wins_unique(rules: Seq<Rule>, text: Seq<char>, i: int, j: int)
    requires
        wins(rules, text, i),
        wins(rules, text, j),
    ensures
        i == j,
{
    assert(rule_matches(rules, text, i));
    assert(rule_matches(rules, text, j));
}

/// The rule that fires on `text` is `i` as soon as `i` meets the policy.
pub proof fn lemma_matched_is(rules: Seq<Rule>, text: Seq<char>, i: int)
    requires
        wins(rules, text, i),
    ensures
        matched_rule(rules, text) == Some(i),
{
    let w = choose|w: int| wins(rules, text, w);
    lemma_wins_unique(rules, text, i, w);
}

/// Where no rule matches, none fires.
pub proof fn lemma_matched_none(rules: Seq<Rule>, text: Seq<char>)
    requires
        forall|j: int| 0 <= j < rules.len() ==> !is_substring(text, rules[j].trigger),
    ensures
        matched_rule(rules, text) is None,
{
    assert forall|i: int| !wins(rules, text, i) by {
        if wins(rules, text, i) {
            assert(rule_matches(rules, text, i));
        }
    }
}

/// Rule `i` is the best of the first `n` rules on `text`.
pub open spec fn wins_among(rules: Seq<Rule>, text: Seq<char>, i: int, n: int) -> bool {
    &&& i < n
    &&& rule_matches(rules, text, i)
    &&& forall|j: int|
        j < n && #[trigger] rule_matches(rules, text, j) ==> {
            ||| rules[j].trigger.len() < rules[i].trigger.len()
            ||| (rules[j].trigger.len() == rules[i].trigger.len() && i <= j)
        }
}

/// Where one of the first `n` rules matches, one of them is the best.
pub proof fn lemma_best_among(rules: Seq<Rule>, text: Seq<char>, n: int)
    requires
        0 <= n <= rules.len(),
        exists|j: int| j < n && rule_matches(rules, text, j),
    ensures
        exists|i: int| wins_among(rules, text, i, n),
    decreases n,
{
    let last = n - 1;
    if exists|j: int| j < last && rule_matches(rules, text, j) {
        lemma_best_among(rules, text, last);
        let w = choose|i: int| wins_among(rules, text, i, last);
        if rule_matches(rules, text, last) && rules[last].trigger.len() > rules[w].trigger.len() {
            assert(wins_among(rules, text, last, n));
        } else {
            assert(wins_among(rules, text, w, n));
        }
    } else {
        let j = choose|j: int| j < n && rule_matches(rules, text, j);
        assert(j == last);
        assert(wins_among(rules, text, last, n));
    }
}

/// A rule fires exactly when some rule matches.
pub proof fn lemma_fires_iff_some_match(rules: Seq<Rule>, text: Seq<char>)
    ensures
        matched_rule(rules, text) is Some <==> exists|j: int| rule_matches(rules, text, j),
        matched_rule(rules, text) matches Some(i) ==> wins(rules, text, i),
{
    if exists|j: int| rule_matches(rules, text, j) {
        let j = choose|j: int| rule_matches(rules, text, j);
        assert(j < rules.len() && rule_matches(rules, text, j));
        lemma_best_among(rules, text, rules.len() as int);
        let w = choose|i: int| wins_among(rules, text, i, rules.len() as int);
        assert(wins(rules, text, w));
    } else {
        assert forall|i: int| !wins(rules, text, i) by {
            if wins(rules, text, i) {
                assert(rule_matches(rules, text, i));
            }
        }
    }
}

/// The rule set. Rules keep the order in which their triggers first came.
#[derive(Debug, PartialEq, Eq)]
pub struct UserAutoReplMap {
    rules: Vec<KeyValue>,
}

impl View for UserAutoReplMap {
    type V = Seq<Rule>;

    closed spec fn view(&self) -> Seq<Rule> {
        self.rules@.map_values(|kv: KeyValue| kv@)
    }
}

impl UserAutoReplMap {
    /// No trigger occurs twice.
    #[verifier::type_invariant]
    closed spec fn distinct(self) -> bool {
        distinct_triggers(self@)
    }

    /// The rule set without rules.
    pub fn new() -> (r: UserAutoReplMap)
        ensures
            r@ == Seq::<Rule>::empty(),
    {
        let r = UserAutoReplMap { rules: Vec::new() };
        assert(r@ =~= Seq::<Rule>::empty());
        r
    }

    /// How many rules there are.
    pub fn len(&self) -> (n: usize)
        ensures
            n == self@.len(),
    {
        self.rules.len()
    }

    /// Whether there is no rule.
    pub fn is_empty(&self) -> (r: bool)
        ensures
            r == (self@.len() == 0),
    {
        self.rules.len() == 0
    }

    /// Reads off that no trigger occurs twice.
    pub fn triggers_are_distinct(&self)
        ensures
            distinct_triggers(self@),
    {
        proof {
            use_type_invariant(self);
        }
    }

    /// Drops every rule.
    pub fn clear(&mut self)
        ensures
            final(self)@ == Seq::<Rule>::empty(),
    {
        self.rules = Vec::new();
        assert(self@ =~= Seq::<Rule>::empty());
    }

    /// The place of the rule with trigger `key`, if there is one.
    pub fn position(&self, key: &str) -> (r: Option<usize>)
        ensures
            match r {
                Some(i) => at_trigger(self@, key@, i as int),
                None => forall|i: int| !at_trigger(self@, key@, i),
            },
    {
        let n: usize = self.rules.len();
        let mut i: usize = 0;
        while i < n
            invariant
                n == self.rules@.len(),
                i <= n,
                forall|k: int| 0 <= k < i ==> !at_trigger(self@, key@, k),
            decreases n - i,
        {
            if same_text(self.rules[i].key.as_str(), key) {
                return Some(i);
            }
            i += 1;
        }
        None
    }

    /// Sets the rule for trigger `key` to `value`. A trigger that is already
    /// there keeps its place.
    pub fn insert(&mut self, key: String, value: String)
        ensures
            final(self)@ == insert_rule(old(self)@, key@, value@),
    {
        proof {
            use_type_invariant(&*self);
        }
        let found = self.position(key.as_str());
        let ghost before = self@;
        let ghost rule = Rule { trigger: key@, replacement: value@ };
        let mut rules: Vec<KeyValue> = Vec::new();
        std::mem::swap(&mut rules, &mut self.rules);
        let ghost after = match found {
            Some(i) => before.update(i as int, rule),
            None => before.push(rule),
        };
        match found {
            Some(i) => {
                proof {
                    let c = choose|c: int| at_trigger(before, key@, c);
                    if c < i {
                        assert(before[c].trigger != before[i as int].trigger);
                    } else if i < c {
                        assert(before[i as int].trigger != before[c].trigger);
                    }
                }
                rules.set(i, KeyValue { key, value });
            },
            None => {
                rules.push(KeyValue { key, value });
            },
        }
        proof {
            assert(rules@.map_values(|kv: KeyValue| kv@) =~= after);
            assert(after == insert_rule(before, rule.trigger, rule.replacement));
            assert forall|a: int, b: int| 0 <= a < b < after.len() implies after[a].trigger
                != after[b].trigger by {
                if b < before.len() {
                    assert(before[a].trigger != before[b].trigger);
                } else {
                    assert(!at_trigger(before, rule.trigger, a));
                }
            }
        }
        self.rules = rules;
    }

    /// The text that replaces trigger `key`, if a rule has that trigger.
    pub fn get(&self, key: &str) -> (r: Option<String>)
        ensures
            match r {
                Some(value) => exists|i: int|
                    at_trigger(self@, key@, i) && self@[i].replacement == value@,
                None => forall|i: int| !at_trigger(self@, key@, i),
            },
    {
        match self.position(key) {
            Some(i) => {
                let value = self.rules[i].value.clone();
                assert(at_trigger(self@, key@, i as int) && self@[i as int].replacement == value@);
                Some(value)
            },
            None => None,
        }
    }

    /// The rule at place `i`.
    pub(crate) fn rule_at(&self, i: usize) -> (r: KeyValue)
        requires
            i < self@.len(),
        ensures
            r@ == self@[i as int],
    {
        self.rules[i].clone()
    }

    /// The rule at place `i`, if there are that many.
    pub fn rule(&self, i: usize) -> (r: Option<KeyValue>)
        ensures
            match r {
                Some(kv) => i < self@.len() && kv@ == self@[i as int],
                None => i >= self@.len(),
            },
    {
        if i < self.rules.len() {
            Some(self.rule_at(i))
        } else {
            None
        }
    }

    /// The rule that fires on `text`: the longest trigger that occurs in it,
    /// the earliest rule among equally long ones.
    pub fn find_match(&self, text: &Vec<char>) -> (r: Option<usize>)
        ensures
            match r {
                Some(i) => matched_rule(self@, text@) == Some(i as int),
                None => matched_rule(self@, text@) is None,
            },
            r is None <==> forall|j: int| 0 <= j < self@.len() ==> !is_substring(text@, self@[j].trigger),
    {
        let n: usize = self.rules.len();
        let mut best: Option<usize> = None;
        let mut best_len: usize = 0;
        let mut i: usize = 0;
        while i < n
            invariant
                n == self.rules@.len(),
                i <= n,
                match best {
                    Some(b) => {
                        &&& b < i
                        &&& rule_matches(self@, text@, b as int)
                        &&& best_len == self@[b as int].trigger.len()
                        &&& forall|j: int|
                            0 <= j < i && #[trigger] rule_matches(self@, text@, j) ==> {
                                ||| self@[j].trigger.len() < best_len
                                ||| (self@[j].trigger.len() == best_len && b <= j)
                            }
                    },
                    None => forall|j: int| 0 <= j < i ==> !rule_matches(self@, text@, j),
                },
            decreases n - i,
        {
            let trigger = chars_of(self.rules[i].key.as_str());
            assert(trigger@ == self@[i as int].trigger);
            if contains_chars(text, &trigger) {
                let longer = match best {
                    Some(_) => trigger.len() > best_len,
                    None => true,
                };
                if longer {
                    best = Some(i);
                    best_len = trigger.len();
                }
            }
            i += 1;
        }
        proof {
            match best {
                Some(b) => {
                    assert(wins(self@, text@, b as int));
                    lemma_matched_is(self@, text@, b as int);
                    assert(is_substring(text@, self@[b as int].trigger));
                },
                None => {
                    assert forall|j: int| 0 <= j < self@.len() implies !is_substring(
                        text@,
                        self@[j].trigger,
                    ) by {
                        assert(!rule_matches(self@, text@, j));
                    }
                    lemma_matched_none(self@, text@);
                },
            }
        }
        best
    }
}

} // verus!
