//! What the pipeline hands to its caller: events for the two virtual devices
//! and notices of a changed setting, in the order in which they are due.

use crate::scale::AreaScale;
use vstd::prelude::*;

verus! {

/// The two virtual devices that take events.
#[derive(Clone, Copy, Debug, PartialEq, Eq)]
pub enum Sink {
    /// The keyboard-like device, for the keys bound to the tablet buttons.
    Keyboard,
    /// The pen-like device, for the pen buttons, the axes and the touch key.
    Pen,
}

/// The absolute axes of the pen-like device.
#[derive(Clone, Copy, Debug, PartialEq, Eq)]
pub enum Axis {
    X,
    Y,
    Pressure,
}

/// The two ways in which the tablet is used.
#[derive(Clone, Copy, Debug, PartialEq, Eq)]
pub enum Mode {
    /// A window of the tablet's surface is stretched over the whole output range.
    Mouse,
    /// The whole surface maps to the whole output range.
    Tablet,
}

/// What happened to a button between two consecutive reports.
#[derive(Clone, Copy, Debug, PartialEq, Eq)]
pub enum Transition {
    Pressed,
    Released,
    Held,
}

/// Value of a key event for a button that went down.
pub const PRESSED: i32 = 1;

/// Value of a key event for a button that went up.
pub const RELEASED: i32 = 0;

/// Value of a key event for a button that stayed down.
pub const HOLD: i32 = 2;

impl Transition {
    /// The value that a key event carries for this transition.
    pub open spec fn spec_value(self) -> i32 {
        match self {
            Transition::Pressed => PRESSED,
            Transition::Released => RELEASED,
            Transition::Held => HOLD,
        }
    }

    /// The value that a key event carries for this transition.
    #[verifier::when_used_as_spec(spec_value)]
    pub fn value(self) -> (value: i32)
        ensures
            value == self.spec_value(),
    {
        match self {
            Transition::Pressed => PRESSED,
            Transition::Released => RELEASED,
            Transition::Held => HOLD,
        }
    }
}

/// An event for a virtual device.
#[derive(Clone, Copy, Debug, PartialEq, Eq)]
pub enum SinkEvent {
    /// A key with its code, and 1, 0 or 2 for pressed, released or held.
    Key { code: u16, value: i32 },
    /// A new position on an absolute axis.
    AbsoluteAxis { axis: Axis, value: i32 },
    /// The events sent so far form one unit.
    Sync,
}

/// A setting that a tablet button changed. It takes effect with the next
/// report.
#[derive(Clone, Copy, Debug, PartialEq, Eq)]
pub enum Notice {
    /// The mouse area shrank to `scale`.
    AreaReduced { scale: AreaScale },
    /// The mouse area grew to `scale`.
    AreaEnlarged { scale: AreaScale },
    /// The tablet is now used in `mode`.
    ModeChanged { mode: Mode },
}

/// One step that the caller performs for the pipeline.
#[derive(Clone, Copy, Debug, PartialEq, Eq)]
pub enum Action {
    /// Send `event` to `sink`.
    Emit { sink: Sink, event: SinkEvent },
    /// Tell whoever watches the settings.
    Notify { notice: Notice },
}

/// The action that sends a key event.
pub open spec fn key_action(sink: Sink, code: u16, value: i32) -> Action {
    Action::Emit { sink, event: SinkEvent::Key { code, value } }
}

/// The action that sends an axis event to the pen-like device.
pub open spec fn axis_action(axis: Axis, value: i32) -> Action {
    Action::Emit { sink: Sink::Pen, event: SinkEvent::AbsoluteAxis { axis, value } }
}

/// The action that sends a synchronisation event.
pub open spec fn sync_action(sink: Sink) -> Action {
    Action::Emit { sink, event: SinkEvent::Sync }
}

/// The key events of a chord: one for each code, in the order of `codes`, all
/// with the same value.
pub open spec fn chord_actions(sink: Sink, codes: Seq<u16>, value: i32) -> Seq<Action> {
    Seq::new(codes.len(), |i: int| key_action(sink, codes[i], value))
}

/// A chord followed by the synchronisation event that closes it.
pub open spec fn synced_chord_actions(sink: Sink, codes: Seq<u16>, value: i32) -> Seq<Action> {
    chord_actions(sink, codes, value).push(sync_action(sink))
}

/// Appends to `actions` the key events of a chord and the synchronisation
/// event that closes it.
pub fn push_synced_chord(actions: &mut Vec<Action>, sink: Sink, codes: &Vec<u16>, value: i32)
    ensures
        final(actions)@ == old(actions)@ + synced_chord_actions(sink, codes@, value),
{
    let ghost before = actions@;
    let mut i: usize = 0;
    while i < codes.len()
        invariant
            i <= codes.len(),
            actions@ == before + chord_actions(sink, codes@.take(i as int), value),
        decreases codes.len() - i,
    {
        actions.push(Action::Emit { sink, event: SinkEvent::Key { code: codes[i], value } });
        i += 1;
    }
    actions.push(Action::Emit { sink, event: SinkEvent::Sync });
}

} // verus!
