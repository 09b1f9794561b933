//! The meta key as a grabbing listener sees it.

use vstd::prelude::*;
use crate::auto_replacement::{Event, EventType};
use crate::gate::{GateView, SharedGate};
use crate::keys::Key;

verus! {

/// Whether the grabbing listener swallows `event_type`: a press of the left
/// meta key while the application is active and the foreground window is
/// fullscreen.
pub open spec fn grab_swallows(gate: GateView, event_type: EventType) -> bool {
    event_type == EventType::KeyPress(Key::MetaLeft) && gate.app_active && gate.fullscreen
}

/// Answers the grabbing listener: the event itself where it goes on, nothing
/// where it is swallowed.
pub fn watch_win_key(gate: &SharedGate, event: Event) -> (r: Option<Event>)
    ensures
        match r {
            Some(passed) => passed == event && !grab_swallows(gate@, event.event_type),
            None => grab_swallows(gate@, event.event_type),
        },
{
    if let EventType::KeyPress(Key::MetaLeft) = event.event_type {
        if gate.app_active() && gate.fullscreen() {
            None
        } else {
            Some(event)
        }
    } else {
        Some(event)
    }
}

} // verus!
