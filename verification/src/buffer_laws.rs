//! What holds of the replacement buffer over whole runs of events.

use vstd::prelude::*;
use crate::auto_replacement::{
    accepted,
    capture,
    engine,
    log_text,
    name_text,
    EventView,
    KeyEventView,
    ReplacementView,
};
use crate::common::Rule;
use crate::gate::GateView;
use crate::rules::{
    lemma_fires_iff_some_match,
    lemma_matched_is,
    lemma_matched_none,
    matched_rule,
    rule_matches,
    wins,
};
use crate::sender::{burst_plan, lemma_burst_clears_flag, pending, run};
use crate::keys::{taps, Key, SyntheticView};
use crate::text::{is_substring, occurs_at};

verus! {

/// One event as the capture loop receives it, with the locale tag that was
/// current.
pub struct Input {
    pub event: EventView,
    pub locale: Seq<char>,
}

/// The observation that an input leaves in the buffer when it is appended.
pub open spec fn observation(input: Input) -> KeyEventView {
    KeyEventView { event: input.event, locale: input.locale }
}

/// The observations of a run of inputs.
pub open spec fn observations(inputs: Seq<Input>) -> Seq<KeyEventView> {
    inputs.map_values(|i: Input| observation(i))
}

/// The resolved texts of a run of inputs, one after another.
pub open spec fn typed_text(inputs: Seq<Input>) -> Seq<char> {
    log_text(observations(inputs))
}

/// The buffer and the orders issued after a run of inputs went through the
/// capture loop, one by one, under an unchanged gate.
pub open spec fn feed(gate: GateView, log: Seq<KeyEventView>, inputs: Seq<Input>) -> (
    Seq<KeyEventView>,
    Seq<ReplacementView>,
)
    decreases inputs.len(),
{
    if inputs.len() == 0 {
        (log, Seq::empty())
    } else {
        let (before, orders) = feed(gate, log, inputs.drop_last());
        let (after, order) = capture(gate, before, inputs.last().event, inputs.last().locale);
        (
            after,
            match order {
                Some(o) => orders.push(o),
                None => orders,
            },
        )
    }
}

/// A text that holds a needle still holds it when more text follows.
pub proof fn lemma_substring_extends(hay: Seq<char>, more: Seq<char>, needle: Seq<char>)
    requires
        is_substring(hay, needle),
    ensures
        is_substring(hay + more, needle),
{
    let at = choose|at: int| occurs_at(hay, needle, at);
    assert((hay + more).subrange(at, at + needle.len()) =~= hay.subrange(at, at + needle.len()));
    assert(occurs_at(hay + more, needle, at));
}

/// The text of a buffer followed by more observations is the text of the
/// buffer followed by the text of those.
pub proof fn lemma_log_text_concat(log: Seq<KeyEventView>, more: Seq<KeyEventView>)
    ensures
        log_text(log + more) == log_text(log) + log_text(more),
    decreases more.len(),
{
    if more.len() == 0 {
        assert(log + more =~= log);
        assert(log_text(log) + Seq::<char>::empty() =~= log_text(log));
    } else {
        lemma_log_text_concat(log, more.drop_last());
        assert((log + more).drop_last() =~= log + more.drop_last());
        assert((log + more).last() == more.last());
        assert((log_text(log) + log_text(more.drop_last())) + name_text(more.last()) =~= log_text(
            log,
        ) + (log_text(more.drop_last()) + name_text(more.last())));
    }
}

/// Typing that completes no trigger only accumulates. With the flag down and
/// at least one rule configured, a run of accepted candidate-key presses
/// whose text, read after the text already in the buffer, holds no trigger
/// leaves the buffer extended by exactly those observations, in the order
/// pressed, and issues no order.
pub proof fn lemma_accumulates_without_trigger(
    gate: GateView,
    log: Seq<KeyEventView>,
    inputs: Seq<Input>,
)
    requires
        !gate.sending,
        gate.rules.len() > 0,
        forall|i: int| 0 <= i < inputs.len() ==> accepted(observation(#[trigger] inputs[i])),
        forall|j: int|
            0 <= j < gate.rules.len() ==> !is_substring(
                log_text(log) + typed_text(inputs),
                (#[trigger] gate.rules[j]).trigger,
            ),
    ensures
        feed(gate, log, inputs) == (log + observations(inputs), Seq::<ReplacementView>::empty()),
        log_text(feed(gate, log, inputs).0) == log_text(log) + typed_text(inputs),
    decreases inputs.len(),
{
    lemma_log_text_concat(log, observations(inputs));
    if inputs.len() == 0 {
        assert(log + observations(inputs) =~= log);
    } else {
        let init = inputs.drop_last();
        let last = inputs.last();
        assert(observations(inputs).drop_last() =~= observations(init));
        assert(observations(inputs).last() == observation(last));
        let whole = log_text(log) + typed_text(inputs);
        assert(whole =~= (log_text(log) + typed_text(init)) + name_text(observation(last)));
        assert forall|j: int| 0 <= j < gate.rules.len() implies !is_substring(
            log_text(log) + typed_text(init),
            (#[trigger] gate.rules[j]).trigger,
        ) by {
            if is_substring(log_text(log) + typed_text(init), gate.rules[j].trigger) {
                lemma_substring_extends(
                    log_text(log) + typed_text(init),
                    name_text(observation(last)),
                    gate.rules[j].trigger,
                );
            }
        }
        assert forall|i: int| 0 <= i < init.len() implies accepted(
            observation(#[trigger] init[i]),
        ) by {
            assert(init[i] == inputs[i]);
        }
        lemma_accumulates_without_trigger(gate, log, init);
        let before = log + observations(init);
        assert(accepted(observation(last)));
        let grown = before.push(observation(last));
        assert(grown =~= log + observations(inputs));
        assert(log_text(grown) == whole);
        lemma_matched_none(gate.rules, whole);
        assert(engine(gate.rules, grown) == (grown, None::<ReplacementView>));
    }
}

/// A single trigger in the buffer fires. Where the text of a buffer that is
/// not empty holds the trigger of exactly one rule, the engine empties the
/// buffer and orders as many backspaces as that trigger has characters,
/// followed by the insertion of that rule's replacement.
pub proof fn lemma_single_trigger_fires(rules: Seq<Rule>, log: Seq<KeyEventView>, i: int)
    requires
        log.len() > 0,
        0 <= i < rules.len(),
        is_substring(log_text(log), rules[i].trigger),
        forall|j: int|
            0 <= j < rules.len() && j != i ==> !is_substring(
                log_text(log),
                (#[trigger] rules[j]).trigger,
            ),
    ensures
        engine(rules, log).0 == Seq::<KeyEventView>::empty(),
        engine(rules, log).1 == Some(
            ReplacementView { backspaces: rules[i].trigger.len(), text: rules[i].replacement },
        ),
        burst_plan(engine(rules, log).1->0) == taps(Key::Backspace, rules[i].trigger.len()) + seq![
            SyntheticView::Text(rules[i].replacement),
        ],
{
    assert(wins(rules, log_text(log), i)) by {
        assert forall|j: int| #[trigger] rule_matches(rules, log_text(log), j) implies ({
            ||| rules[j].trigger.len() < rules[i].trigger.len()
            ||| (rules[j].trigger.len() == rules[i].trigger.len() && i <= j)
        }) by {
            assert(j == i);
        }
    }
    lemma_matched_is(rules, log_text(log), i);
}

/// The engine issues an order exactly when the buffer is not empty and its
/// text holds the trigger of some rule; the order is that of the rule that
/// the policy picks, and the buffer is empty afterwards.
pub proof fn lemma_engine_fires_iff_contained(rules: Seq<Rule>, log: Seq<KeyEventView>)
    ensures
        engine(rules, log).1 is Some <==> log.len() > 0 && exists|j: int|
            rule_matches(rules, log_text(log), j),
        engine(rules, log).1 matches Some(order) ==> {
            &&& engine(rules, log).0 == Seq::<KeyEventView>::empty()
            &&& matched_rule(rules, log_text(log)) matches Some(i)
            &&& wins(rules, log_text(log), i)
            &&& order == ReplacementView {
                backspaces: rules[i].trigger.len(),
                text: rules[i].replacement,
            }
        },
        engine(rules, log).1 is None ==> engine(rules, log).0 == log,
{
    lemma_fires_iff_some_match(rules, log_text(log));
}

/// An issued order leaves nothing behind: whenever an event makes the capture
/// loop issue an order, the buffer is empty afterwards.
pub proof fn lemma_order_resets_buffer(
    gate: GateView,
    log: Seq<KeyEventView>,
    event: EventView,
    locale: Seq<char>,
)
    ensures
        capture(gate, log, event, locale).1 is Some ==> capture(gate, log, event, locale).0
            == Seq::<KeyEventView>::empty(),
{
}

/// A replacement can be had again at once. Where a run of inputs, typed into
/// the empty buffer, ends with an order, typing the same run again right
/// after it issues the same orders and ends in the same state.
pub proof fn lemma_refeed_repeats(gate: GateView, inputs: Seq<Input>)
    requires
        inputs.len() > 0,
        capture(
            gate,
            feed(gate, Seq::empty(), inputs.drop_last()).0,
            inputs.last().event,
            inputs.last().locale,
        ).1 is Some,
    ensures
        feed(gate, feed(gate, Seq::empty(), inputs).0, inputs) == feed(gate, Seq::empty(), inputs),
        feed(gate, Seq::empty(), inputs).1.len() > 0,
{
    let before = feed(gate, Seq::empty(), inputs.drop_last()).0;
    lemma_order_resets_buffer(gate, before, inputs.last().event, inputs.last().locale);
}

/// While the flag is up the capture loop is blind: no run of events changes
/// the buffer or issues an order.
pub proof fn lemma_sending_masks_input(gate: GateView, log: Seq<KeyEventView>, inputs: Seq<Input>)
    requires
        gate.sending,
    ensures
        feed(gate, log, inputs) == (log, Seq::<ReplacementView>::empty()),
    decreases inputs.len(),
{
    if inputs.len() > 0 {
        lemma_sending_masks_input(gate, log, inputs.drop_last());
    }
}

/// A burst masks itself. Started with the flag down, a burst hands out
/// exactly its plan and ends with the flag down and every other shared value
/// untouched, whichever of its units the system refused; and the events that
/// come in while its flag is up, its own echoes among them, leave the buffer
/// as it was and issue no order.
pub proof fn lemma_burst_masks_itself(
    plan: Seq<SyntheticView>,
    gate: GateView,
    reports: Seq<bool>,
    log: Seq<KeyEventView>,
    echoes: Seq<Input>,
)
    requires
        !gate.sending,
        reports.len() == plan.len() + 1,
    ensures
        run(pending(plan), gate, reports).2 == plan,
        run(pending(plan), gate, reports).1 == gate,
        feed(GateView { sending: true, ..gate }, log, echoes) == (
            log,
            Seq::<ReplacementView>::empty(),
        ),
{
    lemma_burst_clears_flag(plan, gate, reports);
    lemma_sending_masks_input(GateView { sending: true, ..gate }, log, echoes);
}

} // verus!
