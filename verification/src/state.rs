//! What the pipeline remembers from one report to the next, and what it owes
//! for a report: the actions and the state that follows, as functions of the
//! state before and of the report's bytes.

use crate::bindings::{pen_binding, tablet_binding};
use crate::controller::{ModeController, AREA_ENLARGE_ID, AREA_REDUCE_ID, MODE_TOGGLE_ID};
use crate::edges::{
    button_pressed, is_tablet_button, pen_edge_is_bound, pen_transition, tablet_transition,
    touch_transition, ALL_RELEASED, PEN_NO_BUTTON, TABLET_ID_END,
};
use crate::events::{
    axis_action, key_action, sync_action, synced_chord_actions, Action, Axis, Mode, Notice, Sink,
    Transition,
};
use crate::pointer::{
    is_touching, mode_pressure, remapped, smoothed, AXIS_CENTER, RAW_MAX, WINDOW_CENTER_X,
    WINDOW_CENTER_Y,
};
use crate::report::{
    is_field_offset, lemma_decode_reads_field_bytes_only, pen_buttons_of, pressure_of,
    tablet_buttons_of, x_axis_of, y_axis_of, PRESSURE_HIGH, PRESSURE_LOW, REPORT_LEN,
    X_AXIS_HIGH, X_AXIS_LOW, Y_AXIS_HIGH, Y_AXIS_LOW,
};
use crate::scale::{scale_in_bounds, AreaScale, INITIAL_SCALE};
use vstd::prelude::*;

verus! {

/// Code of the key that the pen-like device gets when the tip touches down or
/// lifts.
pub open spec fn touch_key() -> u16 {
    0x14a
}

/// What the pipeline remembers between reports.
#[derive(Clone, Copy, Debug, PartialEq, Eq)]
pub struct DispatcherState {
    /// Tablet-button flags of the last report.
    pub tablet_last_raw_pressed_buttons: u16,
    /// Pen-button code of the last report.
    pub pen_last_raw_pressed_button: u8,
    /// Whether the pen tip touched the surface in the last report.
    pub was_touching: bool,
    /// Last smoothed horizontal position.
    pub last_x: i32,
    /// Last smoothed vertical position.
    pub last_y: i32,
    /// Mode and size of the mouse area.
    pub controller: ModeController,
}

impl DispatcherState {
    /// The state is well formed when the smoothed position lies within the
    /// range of the raw values and the settings are well formed.
    pub open spec fn wf(&self) -> bool {
        &&& 0 <= self.last_x <= RAW_MAX
        &&& 0 <= self.last_y <= RAW_MAX
        &&& self.controller.wf()
    }
}

/// The state at startup: no tablet button down, no pen button down, the tip
/// up, the position at the middle of both axes, Mouse mode and the initial
/// scale.
pub open spec fn initial_state() -> DispatcherState {
    DispatcherState {
        tablet_last_raw_pressed_buttons: ALL_RELEASED,
        pen_last_raw_pressed_button: PEN_NO_BUTTON,
        was_touching: false,
        last_x: AXIS_CENTER,
        last_y: AXIS_CENTER,
        controller: ModeController {
            mode: Mode::Mouse,
            mouse_area_scale: AreaScale { billionths: INITIAL_SCALE },
        },
    }
}

/// The actions for the pen buttons: nothing without a transition; else the
/// chord of the button with the transition's value, and a synchronisation
/// event, all for the pen-like device.
pub open spec fn pen_button_actions(previous: u8, current: u8) -> Seq<Action>
    recommends
        pen_edge_is_bound(previous, current),
{
    match pen_transition(previous, current) {
        Some((transition, code)) => synced_chord_actions(
            Sink::Pen,
            pen_binding(code).unwrap(),
            transition.spec_value(),
        ),
        None => Seq::empty(),
    }
}

/// Whether tablet button `id`, going down, changes a setting in place of
/// sending its keys.
pub open spec fn is_setting_button(id: u8) -> bool {
    id == AREA_REDUCE_ID || id == AREA_ENLARGE_ID || id == MODE_TOGGLE_ID
}

/// The settings after tablet button `id` was looked at: changed where the
/// button changes a setting and went down with this report, else as before.
pub open spec fn tablet_key_controller(
    controller: ModeController,
    previous: u16,
    id: u8,
    flags: u16,
) -> ModeController
    recommends
        is_tablet_button(id),
{
    if tablet_transition(previous, flags, id) == Some(Transition::Pressed) {
        if id == AREA_REDUCE_ID {
            controller.with_area_reduced()
        } else if id == AREA_ENLARGE_ID {
            controller.with_area_enlarged()
        } else if id == MODE_TOGGLE_ID {
            controller.with_mode_toggled()
        } else {
            controller
        }
    } else {
        controller
    }
}

/// The actions for tablet button `id`: nothing without a transition; a notice
/// of the new setting where the button changes one and went down; else the
/// chord of the button with the transition's value and a synchronisation
/// event, for the keyboard-like device.
pub open spec fn tablet_key_actions(
    controller: ModeController,
    previous: u16,
    id: u8,
    flags: u16,
) -> Seq<Action>
    recommends
        is_tablet_button(id),
{
    match tablet_transition(previous, flags, id) {
        None => Seq::empty(),
        Some(transition) => {
            if transition == Transition::Pressed && id == AREA_REDUCE_ID {
                seq![
                    Action::Notify {
                        notice: Notice::AreaReduced {
                            scale: controller.with_area_reduced().mouse_area_scale,
                        },
                    },
                ]
            } else if transition == Transition::Pressed && id == AREA_ENLARGE_ID {
                seq![
                    Action::Notify {
                        notice: Notice::AreaEnlarged {
                            scale: controller.with_area_enlarged().mouse_area_scale,
                        },
                    },
                ]
            } else if transition == Transition::Pressed && id == MODE_TOGGLE_ID {
                seq![
                    Action::Notify {
                        notice: Notice::ModeChanged { mode: controller.with_mode_toggled().mode },
                    },
                ]
            } else {
                synced_chord_actions(
                    Sink::Keyboard,
                    tablet_binding(id).unwrap(),
                    transition.spec_value(),
                )
            }
        },
    }
}

/// The settings after the tablet buttons with an id below `end` were looked
/// at, by rising id.
pub open spec fn tablet_controller_below(
    controller: ModeController,
    previous: u16,
    flags: u16,
    end: u8,
) -> ModeController
    decreases end,
{
    if end == 0 {
        controller
    } else {
        let id = (end - 1) as u8;
        let before = tablet_controller_below(controller, previous, flags, id);
        if is_tablet_button(id) {
            tablet_key_controller(before, previous, id, flags)
        } else {
            before
        }
    }
}

/// The actions for the tablet buttons with an id below `end`, by rising id.
pub open spec fn tablet_actions_below(
    controller: ModeController,
    previous: u16,
    flags: u16,
    end: u8,
) -> Seq<Action>
    decreases end,
{
    if end == 0 {
        Seq::empty()
    } else {
        let id = (end - 1) as u8;
        let before = tablet_controller_below(controller, previous, flags, id);
        if is_tablet_button(id) {
            tablet_actions_below(controller, previous, flags, id) + tablet_key_actions(
                before,
                previous,
                id,
                flags,
            )
        } else {
            tablet_actions_below(controller, previous, flags, id)
        }
    }
}

/// The three axis events for a smoothed position and a normalised pressure:
/// X, Y and pressure, in this order. The position is remapped by the
/// settings; the pressure is passed on.
pub open spec fn axis_actions(controller: ModeController, x: int, y: int, pressure: int) -> Seq<
    Action,
> {
    seq![
        axis_action(
            Axis::X,
            remapped(controller.mode, controller.mouse_area_scale@, x, WINDOW_CENTER_X as int)
                as i32,
        ),
        axis_action(
            Axis::Y,
            remapped(controller.mode, controller.mouse_area_scale@, y, WINDOW_CENTER_Y as int)
                as i32,
        ),
        axis_action(Axis::Pressure, pressure as i32),
    ]
}

/// The action for the pen tip: the touch key with "pressed" where the tip
/// touched down, with "released" where it lifted, else nothing.
pub open spec fn touch_actions(was_touching: bool, raw_pressure: int) -> Seq<Action> {
    match touch_transition(was_touching, is_touching(raw_pressure)) {
        Some(transition) => seq![key_action(Sink::Pen, touch_key(), transition.spec_value())],
        None => Seq::empty(),
    }
}

/// The barrier that ends a report: a synchronisation event for the
/// keyboard-like device, then one for the pen-like device.
pub open spec fn syn_actions() -> Seq<Action> {
    seq![sync_action(Sink::Keyboard), sync_action(Sink::Pen)]
}

/// The actions for the position, the pressure and the tip of the pen: the
/// three axis events, then the touch event if there is one. Position and
/// pressure go by the settings that held when the report came in.
pub open spec fn pointer_actions(state: DispatcherState, bytes: Seq<u8>) -> Seq<Action> {
    axis_actions(
        state.controller,
        smoothed(state.controller.mode, state.last_x as int, x_axis_of(bytes)),
        smoothed(state.controller.mode, state.last_y as int, y_axis_of(bytes)),
        mode_pressure(state.controller.mode, pressure_of(bytes)),
    ) + touch_actions(state.was_touching, pressure_of(bytes))
}

/// Whether the pipeline takes this report in this state: the report holds 64
/// bytes, and its pen-button code does not repeat a code that is neither a
/// button nor "no button".
pub open spec fn accepts_report(state: DispatcherState, bytes: Seq<u8>) -> bool {
    &&& bytes.len() == REPORT_LEN
    &&& pen_edge_is_bound(state.pen_last_raw_pressed_button, pen_buttons_of(bytes))
}

/// The state after the pen part of a report: the pen-button code and the
/// touch of the tip are remembered, and the position is the smoothed one.
pub open spec fn pen_state(state: DispatcherState, bytes: Seq<u8>) -> DispatcherState {
    DispatcherState {
        pen_last_raw_pressed_button: pen_buttons_of(bytes),
        was_touching: is_touching(pressure_of(bytes)),
        last_x: smoothed(state.controller.mode, state.last_x as int, x_axis_of(bytes)) as i32,
        last_y: smoothed(state.controller.mode, state.last_y as int, y_axis_of(bytes)) as i32,
        ..state
    }
}

/// All actions for one report, in the order in which they are due: the pen
/// buttons, the tablet buttons by rising id, the three axes, the touch of the
/// tip, and the barrier.
pub open spec fn dispatch_actions(state: DispatcherState, bytes: Seq<u8>) -> Seq<Action>
    recommends
        accepts_report(state, bytes),
{
    pen_button_actions(state.pen_last_raw_pressed_button, pen_buttons_of(bytes))
        + tablet_actions_below(
        state.controller,
        state.tablet_last_raw_pressed_buttons,
        tablet_buttons_of(bytes),
        TABLET_ID_END,
    ) + pointer_actions(state, bytes) + syn_actions()
}

/// The state after one report: that after its pen part, with the flags of
/// the tablet buttons remembered and the settings as the tablet buttons left
/// them.
pub open spec fn dispatch_state(state: DispatcherState, bytes: Seq<u8>) -> DispatcherState
    recommends
        accepts_report(state, bytes),
{
    DispatcherState {
        tablet_last_raw_pressed_buttons: tablet_buttons_of(bytes),
        controller: tablet_controller_below(
            state.controller,
            state.tablet_last_raw_pressed_buttons,
            tablet_buttons_of(bytes),
            TABLET_ID_END,
        ),
        ..pen_state(state, bytes)
    }
}

/// A tablet button that was up and is up gives no action and changes no
/// setting, whatever the other buttons do.
pub proof fn lemma_idle_button_gives_nothing(
    controller: ModeController,
    previous: u16,
    flags: u16,
    id: u8,
)
    requires
        is_tablet_button(id),
        !button_pressed(previous, id),
        !button_pressed(flags, id),
    ensures
        tablet_key_actions(controller, previous, id, flags) == Seq::<Action>::empty(),
        tablet_key_controller(controller, previous, id, flags) == controller,
{
}

/// A button that changes a setting gives, when it goes down, one notice and
/// no event for a device; no other button, and no other transition, changes
/// a setting.
pub proof fn lemma_settings_change_by_their_buttons_alone(
    controller: ModeController,
    previous: u16,
    flags: u16,
    id: u8,
)
    requires
        is_tablet_button(id),
    ensures
        is_setting_button(id) && tablet_transition(previous, flags, id) == Some(
            Transition::Pressed,
        ) ==> {
            let actions = tablet_key_actions(controller, previous, id, flags);
            actions.len() == 1 && actions[0] is Notify
        },
        !is_setting_button(id) || tablet_transition(previous, flags, id) != Some(
            Transition::Pressed,
        ) ==> tablet_key_controller(controller, previous, id, flags) == controller,
{
}

/// A tablet button whose bit is the same in both flag words changes no
/// setting: only a button that goes down does.
pub proof fn lemma_unchanged_button_keeps_settings(
    controller: ModeController,
    previous: u16,
    flags: u16,
    id: u8,
)
    requires
        is_tablet_button(id),
        button_pressed(previous, id) == button_pressed(flags, id),
    ensures
        tablet_key_controller(controller, previous, id, flags) == controller,
{
}

/// While every tablet button below `end` was up and is up, the scan over
/// them gives no action and changes no setting.
pub proof fn lemma_idle_tablet_gives_nothing(
    controller: ModeController,
    previous: u16,
    flags: u16,
    end: u8,
)
    requires
        forall|id: u8|
            id < end && is_tablet_button(id) ==> !button_pressed(previous, id) && !button_pressed(
                flags,
                id,
            ),
    ensures
        tablet_actions_below(controller, previous, flags, end) == Seq::<Action>::empty(),
        tablet_controller_below(controller, previous, flags, end) == controller,
    decreases end,
{
    if end > 0 {
        let id = (end - 1) as u8;
        lemma_idle_tablet_gives_nothing(controller, previous, flags, id);
        if is_tablet_button(id) {
            lemma_idle_button_gives_nothing(controller, previous, flags, id);
        }
    }
}

/// Whatever the tablet buttons do, the scale stays between one tenth and four
/// tenths.
pub proof fn lemma_tablet_scan_keeps_scale_in_bounds(
    controller: ModeController,
    previous: u16,
    flags: u16,
    end: u8,
)
    requires
        controller.wf(),
    ensures
        tablet_controller_below(controller, previous, flags, end).wf(),
    decreases end,
{
    if end > 0 {
        lemma_tablet_scan_keeps_scale_in_bounds(controller, previous, flags, (end - 1) as u8);
    }
}

/// A well-formed state stays well formed over every report: the scale stays
/// between one tenth and four tenths, and the smoothed position within the
/// range of the raw values.
pub proof fn lemma_dispatch_keeps_state_wf(state: DispatcherState, bytes: Seq<u8>)
    requires
        state.wf(),
        bytes.len() == REPORT_LEN,
    ensures
        dispatch_state(state, bytes).wf(),
{
    lemma_tablet_scan_keeps_scale_in_bounds(
        state.controller,
        state.tablet_last_raw_pressed_buttons,
        tablet_buttons_of(bytes),
        TABLET_ID_END,
    );
}

/// A pen tip that stays down, or stays up, gives no touch event, whatever the
/// pressure is otherwise.
pub proof fn lemma_steady_tip_gives_nothing(was_touching: bool, raw_pressure: int)
    requires
        is_touching(raw_pressure) == was_touching,
    ensures
        touch_actions(was_touching, raw_pressure) == Seq::<Action>::empty(),
{
}

/// The state after a run of reports, the first report first.
pub open spec fn state_after(state: DispatcherState, reports: Seq<Seq<u8>>) -> DispatcherState
    decreases reports.len(),
{
    if reports.len() == 0 {
        state
    } else {
        dispatch_state(state_after(state, reports.drop_last()), reports.last())
    }
}

/// Every state that a run of reports leads to from a well-formed state is
/// well formed: however long the run and whatever it holds, the scale lies
/// between one tenth and four tenths.
pub proof fn lemma_every_state_is_wf(state: DispatcherState, reports: Seq<Seq<u8>>)
    requires
        state.wf(),
        forall|i: int| 0 <= i < reports.len() ==> (#[trigger] reports[i]).len() == REPORT_LEN,
    ensures
        state_after(state, reports).wf(),
        scale_in_bounds(state_after(state, reports).controller.mouse_area_scale@),
    decreases reports.len(),
{
    if reports.len() > 0 {
        lemma_every_state_is_wf(state, reports.drop_last());
        lemma_dispatch_keeps_state_wf(state_after(state, reports.drop_last()), reports.last());
    }
}

/// The pipeline reads nothing of a report but its nine field bytes: on two
/// reports that agree on them it gives the same actions and the same state.
pub proof fn lemma_dispatch_reads_field_bytes_only(
    state: DispatcherState,
    a: Seq<u8>,
    b: Seq<u8>,
)
    requires
        a.len() == REPORT_LEN,
        b.len() == REPORT_LEN,
        forall|i: int| 0 <= i < REPORT_LEN && is_field_offset(i) ==> a[i] == b[i],
    ensures
        accepts_report(state, a) == accepts_report(state, b),
        dispatch_actions(state, a) == dispatch_actions(state, b),
        dispatch_state(state, a) == dispatch_state(state, b),
{
    lemma_decode_reads_field_bytes_only(a, b);
}

/// The settings that the tablet buttons of a report change have no part in
/// that report's own axis and touch events: these go by the state before the
/// report and by the bytes of position, pressure and pen buttons.
pub proof fn lemma_pointer_ignores_tablet_buttons(state: DispatcherState, a: Seq<u8>, b: Seq<u8>)
    requires
        a.len() == REPORT_LEN,
        b.len() == REPORT_LEN,
        a[X_AXIS_HIGH as int] == b[X_AXIS_HIGH as int],
        a[X_AXIS_LOW as int] == b[X_AXIS_LOW as int],
        a[Y_AXIS_HIGH as int] == b[Y_AXIS_HIGH as int],
        a[Y_AXIS_LOW as int] == b[Y_AXIS_LOW as int],
        a[PRESSURE_HIGH as int] == b[PRESSURE_HIGH as int],
        a[PRESSURE_LOW as int] == b[PRESSURE_LOW as int],
    ensures
        pointer_actions(state, a) == pointer_actions(state, b),
{
}

} // verus!
