//! The synthetic input sender as a step function.
//!
//! A burst is a fixed sequence of synthetic units. The caller asks for the
//! next unit, emits it, and reports whether the system took it. The first
//! step raises the suppression flag before it hands out anything; the step
//! after the last unit clears it, whatever was reported in between. A unit
//! that the system refused is counted and the burst goes on.

use vstd::prelude::*;
use vstd::string::*;
use crate::auto_replacement::{Replacement, ReplacementView};
use crate::gate::{GateView, SharedGate};
use crate::keys::{plan_view, send_hotkeys, chord, taps, Key, Synthetic, SyntheticView};

verus! {

/// What is played for a replacement: one tap of the backspace key for every
/// character of the trigger, then the replacement as one insertion.
pub open spec fn burst_plan(order: ReplacementView) -> Seq<SyntheticView> {
    taps(Key::Backspace, order.backspaces) + seq![SyntheticView::Text(order.text)]
}

/// Where a burst stands.
#[derive(Clone, Copy, Debug, PartialEq, Eq, Structural)]
pub enum BurstPhase {
    /// Nothing was handed out yet; the flag is not raised.
    Pending,
    /// The flag is raised and units are being handed out.
    InFlight,
    /// Every unit was handed out and the flag is cleared.
    Finished,
}

/// A burst as plain values.
pub struct BurstView {
    pub plan: Seq<SyntheticView>,
    /// How many units were handed out.
    pub next: nat,
    /// How many of them the system refused.
    pub failures: nat,
    pub phase: BurstPhase,
}

/// A burst: its plan, how far it has come, and how many units were refused.
#[derive(Debug, PartialEq, Eq)]
pub struct Burst {
    plan: Vec<Synthetic>,
    next: usize,
    failures: usize,
    phase: BurstPhase,
}

impl View for Burst {
    type V = BurstView;

    closed spec fn view(&self) -> BurstView {
        BurstView {
            plan: plan_view(self.plan@),
            next: self.next as nat,
            failures: self.failures as nat,
            phase: self.phase,
        }
    }
}

/// A burst that has not begun.
pub open spec fn pending(plan: Seq<SyntheticView>) -> BurstView {
    BurstView { plan, next: 0, failures: 0, phase: BurstPhase::Pending }
}

/// The counters fit the phase: no more units are out than the plan has, no
/// more were refused than are out, and while units are handed out the last
/// of them has not been reported on.
pub open spec fn burst_wf(b: BurstView) -> bool {
    &&& b.next <= b.plan.len()
    &&& b.failures <= b.next
    &&& b.phase is InFlight ==> b.failures < b.next
    &&& b.phase is Finished ==> b.next == b.plan.len()
}

/// One step of a burst. `last_ok` tells whether the unit handed out by the
/// step before was taken; the first step ignores it.
pub open spec fn step(b: BurstView, gate: GateView, last_ok: bool) -> (
    BurstView,
    GateView,
    Option<SyntheticView>,
) {
    if b.phase is Finished {
        (b, gate, None)
    } else {
        let failures = if b.phase is InFlight && !last_ok {
            b.failures + 1
        } else {
            b.failures
        };
        if b.next < b.plan.len() {
            (
                BurstView { next: b.next + 1, failures, phase: BurstPhase::InFlight, ..b },
                GateView { sending: true, ..gate },
                Some(b.plan[b.next as int]),
            )
        } else {
            (
                BurstView { failures, phase: BurstPhase::Finished, ..b },
                GateView { sending: false, ..gate },
                None,
            )
        }
    }
}

/// An optional unit, taken by its view.
pub open spec fn unit_view(u: Option<Synthetic>) -> Option<SyntheticView> {
    match u {
        Some(x) => Some(x@),
        None => None,
    }
}

impl Burst {
    /// The counters fit the phase.
    #[verifier::type_invariant]
    closed spec fn fits(self) -> bool {
        burst_wf(self@)
    }

    /// Reads off that the counters fit the phase.
    pub fn counters_fit(&self)
        ensures
            burst_wf(self@),
    {
        proof {
            use_type_invariant(self);
        }
    }

    /// A burst that will play `plan`.
    pub fn new(plan: Vec<Synthetic>) -> (b: Burst)
        ensures
            b@ == pending(plan_view(plan@)),
    {
        Burst { plan, next: 0, failures: 0, phase: BurstPhase::Pending }
    }

    /// The burst that carries out a replacement.
    pub fn replacement(order: &Replacement) -> (b: Burst)
        ensures
            b@ == pending(burst_plan(order@)),
    {
        let mut plan: Vec<Synthetic> = Vec::new();
        let n: usize = order.backspaces;
        let mut i: usize = 0;
        while i < n
            invariant
                i <= n,
                plan@.len() == 2 * i,
                forall|k: int|
                    0 <= k < plan@.len() ==> (#[trigger] plan@[k])@ == taps(
                        Key::Backspace,
                        i as nat,
                    )[k],
            decreases n - i,
        {
            plan.push(Synthetic::KeyPress(Key::Backspace));
            plan.push(Synthetic::KeyRelease(Key::Backspace));
            i += 1;
        }
        plan.push(Synthetic::Text(order.text.clone()));
        assert(plan_view(plan@) =~= burst_plan(order@));
        Burst::new(plan)
    }

    /// The burst that plays a chord; it is empty where there are no keys.
    pub fn hotkeys(keys: Option<Vec<Key>>) -> (b: Burst)
        ensures
            b@ == pending(
                match keys {
                    Some(k) => chord(k@),
                    None => Seq::empty(),
                },
            ),
    {
        Burst::new(send_hotkeys(keys))
    }

    /// Where the burst stands.
    pub fn phase(&self) -> (r: BurstPhase)
        ensures
            r == self@.phase,
    {
        self.phase
    }

    /// How many units of the burst the system refused so far.
    pub fn failures(&self) -> (r: usize)
        ensures
            r == self@.failures,
    {
        self.failures
    }

    /// Takes the report on the unit before and hands out the next one, or
    /// ends the burst. See `step`.
    pub fn advance(&mut self, gate: &mut SharedGate, last_ok: bool) -> (r: Option<Synthetic>)
        ensures
            (final(self)@, final(gate)@, unit_view(r)) == step(old(self)@, old(gate)@, last_ok),
    {
        proof {
            use_type_invariant(&*self);
        }
        match self.phase {
            BurstPhase::Finished => None,
            BurstPhase::Pending | BurstPhase::InFlight => {
                let refused = self.phase == BurstPhase::InFlight && !last_ok;
                if self.next < self.plan.len() {
                    let unit = self.plan[self.next].clone();
                    self.next = self.next + 1;
                    self.phase = BurstPhase::InFlight;
                    if refused {
                        self.failures = self.failures + 1;
                    }
                    gate.set_sending(true);
                    Some(unit)
                } else {
                    self.phase = BurstPhase::Finished;
                    if refused {
                        self.failures = self.failures + 1;
                    }
                    gate.set_sending(false);
                    None
                }
            },
        }
    }
}

/// A burst taken through one step for each report in `reports`: where it
/// ends, what became of the shared state, and the units that were handed out.
pub open spec fn run(b: BurstView, gate: GateView, reports: Seq<bool>) -> (
    BurstView,
    GateView,
    Seq<SyntheticView>,
)
    decreases reports.len(),
{
    if reports.len() == 0 {
        (b, gate, Seq::empty())
    } else {
        let (b1, g1, out) = run(b, gate, reports.drop_last());
        let (b2, g2, unit) = step(b1, g1, reports.last());
        (
            b2,
            g2,
            match unit {
                Some(u) => out.push(u),
                None => out,
            },
        )
    }
}

/// While units are handed out, the flag is up: after `k` steps of a pending
/// burst, with `k` at least one and at most the length of the plan, the first
/// `k` units are out, in order, and the flag is raised. The reports do not
/// matter.
pub proof fn lemma_flag_up_in_flight(plan: Seq<SyntheticView>, gate: GateView, reports: Seq<bool>)
    requires
        reports.len() <= plan.len(),
    ensures
        ({
            let (b, g, out) = run(pending(plan), gate, reports);
            &&& out == plan.take(reports.len() as int)
            &&& b.plan == plan
            &&& b.next == reports.len()
            &&& burst_wf(b)
            &&& reports.len() > 0 ==> b.phase is InFlight && g == GateView { sending: true, ..gate }
            &&& reports.len() == 0 ==> b == pending(plan) && g == gate
        }),
    decreases reports.len(),
{
    if reports.len() == 0 {
        assert(plan.take(0) =~= Seq::empty());
    } else {
        lemma_flag_up_in_flight(plan, gate, reports.drop_last());
        let (b1, g1, out1) = run(pending(plan), gate, reports.drop_last());
        assert(out1.push(plan[b1.next as int]) =~= plan.take(reports.len() as int));
    }
}

/// A burst always ends with the flag down. Taken through one step more than
/// its plan has units, a pending burst hands out exactly its plan, finishes,
/// and leaves the shared state as it found it with the flag cleared, whichever units
/// were reported as refused.
pub proof fn lemma_burst_clears_flag(plan: Seq<SyntheticView>, gate: GateView, reports: Seq<bool>)
    requires
        reports.len() == plan.len() + 1,
    ensures
        ({
            let (b, g, out) = run(pending(plan), gate, reports);
            &&& out == plan
            &&& b.phase is Finished
            &&& g == GateView { sending: false, ..gate }
        }),
{
    lemma_flag_up_in_flight(plan, gate, reports.drop_last());
    assert(plan.take(plan.len() as int) =~= plan);
}

} // verus!
