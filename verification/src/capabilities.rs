//! What the two virtual devices declare before they take events: the keys of
//! both, and the axes of the pen-like one.

use crate::bindings::{codes_fit, pen_emitted, tablet_emitted};
use crate::dispatcher::DeviceDispatcher;
use crate::events::Axis;
use crate::keys::{
    btn_left, btn_right, btn_tool_pen, key_set_codes, key_set_insert, key_set_new, KeySet,
};
use crate::pointer::{AXIS_MAX, PRESSURE_MAX};
use vstd::prelude::*;

verus! {

/// The range that the pen-like device declares for one axis. The fields are
/// those of the kernel's description of an absolute axis.
#[derive(Clone, Copy, Debug, PartialEq, Eq)]
pub struct AxisSetup {
    pub axis: Axis,
    pub value: i32,
    pub minimum: i32,
    pub maximum: i32,
    pub fuzz: i32,
    pub flat: i32,
    pub resolution: i32,
}

/// What the pen-like device declares.
pub struct PenCapabilities {
    pub keys: KeySet,
    pub axes: Vec<AxisSetup>,
}

/// An axis that runs from 0 to `maximum` with a resolution of 1.
pub open spec fn axis_up_to(axis: Axis, maximum: i32) -> AxisSetup {
    AxisSetup { axis, value: 0, minimum: 0, maximum, fuzz: 0, flat: 0, resolution: 1 }
}

/// The axes of the pen-like device: X and Y up to 4096, pressure up to 5000.
pub open spec fn pen_axes() -> Seq<AxisSetup> {
    seq![
        axis_up_to(Axis::X, AXIS_MAX),
        axis_up_to(Axis::Y, AXIS_MAX),
        axis_up_to(Axis::Pressure, PRESSURE_MAX),
    ]
}

/// The keys that the pen-like device declares besides those of the pen
/// buttons: the pen as a tool, and the primary and secondary pointer buttons.
pub open spec fn pen_fixed_keys() -> Set<u16> {
    set![0x140u16, 0x110u16, 0x111u16]
}

/// Puts every code of the list into the set.
fn insert_all(set: &mut KeySet, codes: &Vec<u16>)
    requires
        codes_fit(codes@),
    ensures
        key_set_codes(*final(set)) == key_set_codes(*old(set)).union(codes@.to_set()),
{
    let ghost start = key_set_codes(*set);
    let mut i: usize = 0;
    while i < codes.len()
        invariant
            i <= codes.len(),
            codes_fit(codes@),
            key_set_codes(*set) == start.union(codes@.take(i as int).to_set()),
        decreases codes.len() - i,
    {
        key_set_insert(set, codes[i]);
        proof {
            let shorter = codes@.take(i as int);
            let longer = codes@.take(i + 1);
            assert forall|code: u16| longer.to_set().contains(code) <==> shorter.to_set().insert(
                codes@[i as int],
            ).contains(code) by {
                if shorter.contains(code) {
                    let j = choose|j: int| 0 <= j < shorter.len() && shorter[j] == code;
                    assert(longer[j] == code);
                }
                if code == codes@[i as int] {
                    assert(longer[i as int] == code);
                }
            }
            assert(key_set_codes(*set) =~= start.union(longer.to_set()));
        }
        i += 1;
    }
    assert(codes@.take(i as int) =~= codes@);
}

impl DeviceDispatcher {
    /// The keys that the keyboard-like device declares: those of the list.
    pub fn virtual_keyboard_builder(tablet_emitted_keys: &Vec<u16>) -> (keys: KeySet)
        requires
            codes_fit(tablet_emitted_keys@),
        ensures
            key_set_codes(keys) == tablet_emitted_keys@.to_set(),
    {
        let mut key_set = key_set_new();
        insert_all(&mut key_set, tablet_emitted_keys);
        key_set
    }

    /// What the pen-like device declares: the keys of the list and the three
    /// fixed ones, and the three axes.
    pub fn virtual_pen_builder(pen_emitted_keys: &Vec<u16>) -> (capabilities: PenCapabilities)
        requires
            codes_fit(pen_emitted_keys@),
        ensures
            key_set_codes(capabilities.keys) == pen_emitted_keys@.to_set().union(pen_fixed_keys()),
            capabilities.axes@ == pen_axes(),
    {
        let abs_x_setup = AxisSetup {
            axis: Axis::X,
            value: 0,
            minimum: 0,
            maximum: AXIS_MAX,
            fuzz: 0,
            flat: 0,
            resolution: 1,
        };
        let abs_y_setup = AxisSetup {
            axis: Axis::Y,
            value: 0,
            minimum: 0,
            maximum: AXIS_MAX,
            fuzz: 0,
            flat: 0,
            resolution: 1,
        };
        let abs_pressure_setup = AxisSetup {
            axis: Axis::Pressure,
            value: 0,
            minimum: 0,
            maximum: PRESSURE_MAX,
            fuzz: 0,
            flat: 0,
            resolution: 1,
        };
        let axes: Vec<AxisSetup> = vec![abs_x_setup, abs_y_setup, abs_pressure_setup];

        let mut key_set = key_set_new();
        insert_all(&mut key_set, pen_emitted_keys);
        key_set_insert(&mut key_set, btn_tool_pen());
        key_set_insert(&mut key_set, btn_left());
        key_set_insert(&mut key_set, btn_right());
        PenCapabilities { keys: key_set, axes }
    }

    /// The keys that the keyboard-like device declares: every key that a
    /// tablet button is bound to.
    pub fn keyboard_capabilities(&self) -> (keys: KeySet)
        requires
            self.wf(),
        ensures
            key_set_codes(keys) == tablet_emitted().to_set(),
    {
        let codes: Vec<u16> = self.tablet_emitted_keys();
        Self::virtual_keyboard_builder(&codes)
    }

    /// What the pen-like device declares: every key that a pen button is
    /// bound to, the three fixed keys, and the three axes.
    pub fn pen_capabilities(&self) -> (capabilities: PenCapabilities)
        requires
            self.wf(),
        ensures
            key_set_codes(capabilities.keys) == pen_emitted().to_set().union(pen_fixed_keys()),
            capabilities.axes@ == pen_axes(),
    {
        let codes: Vec<u16> = self.pen_emitted_keys();
        Self::virtual_pen_builder(&codes)
    }
}

} // verus!
