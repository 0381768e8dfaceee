//! Edge detection: what the change from one report to the next means for a
//! tablet button, for the pen buttons and for the touch of the pen tip.

use crate::events::Transition;
use vstd::prelude::*;

verus! {

/// Code of the pen-button byte while no pen button is down.
pub const PEN_NO_BUTTON: u8 = 2;

/// Code of the pen-button byte while the first pen button is down.
pub const PEN_BUTTON_LOWER: u8 = 4;

/// Code of the pen-button byte while the second pen button is down.
pub const PEN_BUTTON_UPPER: u8 = 6;

/// Flags of the tablet buttons while none is down.
pub const ALL_RELEASED: u16 = 0xFFFF;

/// Number of ids that the tablet-button scan runs over: 0 to 13.
pub const TABLET_ID_END: u8 = 14;

/// The ids of the tablet buttons: 0 to 13, without 10 and 11, which the device
/// does not have.
pub open spec fn is_tablet_button(id: u8) -> bool {
    id < TABLET_ID_END && id != 10 && id != 11
}

/// The codes that stand for a pen button.
pub open spec fn is_pen_button(code: u8) -> bool {
    code == PEN_BUTTON_LOWER || code == PEN_BUTTON_UPPER
}

/// Whether the flags show button `id` as down: its bit is clear.
pub open spec fn button_pressed(flags: u16, id: u8) -> bool
    recommends
        id < 16,
{
    flags & (1u16 << id) == 0
}

/// What a button did that was down or not before, and is down or not now. A
/// button that stays up does nothing.
pub open spec fn edge(was_pressed: bool, is_pressed: bool) -> Option<Transition> {
    if !was_pressed && is_pressed {
        Some(Transition::Pressed)
    } else if was_pressed && !is_pressed {
        Some(Transition::Released)
    } else if was_pressed && is_pressed {
        Some(Transition::Held)
    } else {
        None
    }
}

/// What tablet button `id` did between the flags of the last report and those
/// of this one.
pub open spec fn tablet_transition(previous: u16, current: u16, id: u8) -> Option<Transition>
    recommends
        id < 16,
{
    edge(button_pressed(previous, id), button_pressed(current, id))
}

/// What the pen buttons did between the code of the last report and that of
/// this one, and the code of the button that did it. The byte holds one code,
/// so a press is a change from "no button" to a button, a release the change
/// back, and a hold the same code twice, unless it is "no button".
pub open spec fn pen_transition(previous: u8, current: u8) -> Option<(Transition, u8)> {
    if previous == PEN_NO_BUTTON && is_pen_button(current) {
        Some((Transition::Pressed, current))
    } else if is_pen_button(previous) && current == PEN_NO_BUTTON {
        Some((Transition::Released, previous))
    } else if previous == current && previous != PEN_NO_BUTTON {
        Some((Transition::Held, previous))
    } else {
        None
    }
}

/// Whether the change of the pen-button code names a pen button, if it names
/// any. It does unless a code other than 2, 4 and 6 comes twice in a row.
pub open spec fn pen_edge_is_bound(previous: u8, current: u8) -> bool {
    match pen_transition(previous, current) {
        Some((_, code)) => is_pen_button(code),
        None => true,
    }
}

/// What the pen tip did: it touched down, it lifted, or neither. A tip that
/// stays down gives no event.
pub open spec fn touch_transition(was_touching: bool, touching: bool) -> Option<Transition> {
    if !was_touching && touching {
        Some(Transition::Pressed)
    } else if was_touching && !touching {
        Some(Transition::Released)
    } else {
        None
    }
}

/// Computes `tablet_transition`.
pub fn tablet_button_edge(previous: u16, current: u16, id: u8) -> (transition: Option<Transition>)
    requires
        id < 16,
    ensures
        transition == tablet_transition(previous, current, id),
{
    let mask: u16 = 1u16 << id;
    let is_pressed: bool = (current & mask) == 0;
    let was_pressed: bool = (previous & mask) == 0;
    if !was_pressed && is_pressed {
        Some(Transition::Pressed)
    } else if was_pressed && !is_pressed {
        Some(Transition::Released)
    } else if was_pressed && is_pressed {
        Some(Transition::Held)
    } else {
        None
    }
}

/// Computes `pen_transition`.
pub fn pen_button_edge(previous: u8, current: u8) -> (transition: Option<(Transition, u8)>)
    ensures
        transition == pen_transition(previous, current),
{
    if previous == PEN_NO_BUTTON && (current == PEN_BUTTON_LOWER || current == PEN_BUTTON_UPPER) {
        Some((Transition::Pressed, current))
    } else if (previous == PEN_BUTTON_LOWER || previous == PEN_BUTTON_UPPER) && current
        == PEN_NO_BUTTON {
        Some((Transition::Released, previous))
    } else if previous == current && previous != PEN_NO_BUTTON {
        Some((Transition::Held, previous))
    } else {
        None
    }
}

/// Computes `touch_transition`.
pub fn touch_edge(was_touching: bool, touching: bool) -> (transition: Option<Transition>)
    ensures
        transition == touch_transition(was_touching, touching),
{
    if !was_touching && touching {
        Some(Transition::Pressed)
    } else if was_touching && !touching {
        Some(Transition::Released)
    } else {
        None
    }
}

/// A tablet button that was up and is up gives no event, whatever the other
/// bits of the two flag words hold.
pub proof fn lemma_idle_button_is_silent(previous: u16, current: u16, id: u8)
    requires
        id < 16,
        !button_pressed(previous, id),
        !button_pressed(current, id),
    ensures
        tablet_transition(previous, current, id) is None,
{
}

/// A tablet button gives "pressed" or "released" only where its bit differs
/// between the two flag words.
pub proof fn lemma_unchanged_button_never_toggles(previous: u16, current: u16, id: u8)
    requires
        id < 16,
        button_pressed(previous, id) == button_pressed(current, id),
    ensures
        tablet_transition(previous, current, id) != Some(Transition::Pressed),
        tablet_transition(previous, current, id) != Some(Transition::Released),
{
}

/// The same touch state twice gives no touch event.
pub proof fn lemma_steady_touch_is_silent(touching: bool)
    ensures
        touch_transition(touching, touching) is None,
{
}

} // verus!
