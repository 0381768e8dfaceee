//! The dispatcher: it takes one report at a time and returns what is to be
//! sent to the two virtual devices.

use crate::bindings::{codes_fit, pen_emitted, tablet_emitted, ButtonBindings};
use crate::controller::{ModeController, AREA_ENLARGE_ID, AREA_REDUCE_ID, MODE_TOGGLE_ID};
use crate::edges::{
    is_tablet_button, pen_button_edge, pen_edge_is_bound, tablet_button_edge, touch_edge,
    ALL_RELEASED, PEN_BUTTON_LOWER, PEN_BUTTON_UPPER, PEN_NO_BUTTON, TABLET_ID_END,
};
use crate::events::{push_synced_chord, Action, Axis, Mode, Sink, SinkEvent, Transition};
use crate::keys::btn_touch;
use crate::pointer::{
    is_touching, normalize, remap_coordinate, smoothed, AXIS_CENTER, MOUSE_SCALING,
    MOUSE_THRESHOLD, PRESSURE_BASE, RAW_MAX, TABLET_SCALING, TABLET_THRESHOLD, TOUCH_SCALING,
    TOUCH_THRESHOLD, WINDOW_CENTER_X, WINDOW_CENTER_Y,
};
use crate::report::{pen_buttons_of, pressure_of, tablet_buttons_of, RawDataReader, REPORT_LEN};
use crate::state::{
    accepts_report, axis_actions, dispatch_actions, dispatch_state, initial_state,
    pen_button_actions, pen_state, pointer_actions, syn_actions, tablet_actions_below,
    tablet_controller_below, tablet_key_actions, tablet_key_controller, touch_actions,
    DispatcherState,
};
use vstd::prelude::*;

verus! {

/// The actions that the pen part of a report gives. They are kept apart
/// because the tablet buttons come between them.
pub struct PenActions {
    /// The chord of a pen button and its synchronisation event, if any.
    pub buttons: Vec<Action>,
    /// The three axis events and the touch event, if any.
    pub pointer: Vec<Action>,
}

/// The pipeline: the two binding tables and the state between reports.
pub struct DeviceDispatcher {
    state: DispatcherState,
    bindings: ButtonBindings,
}

impl View for DeviceDispatcher {
    type V = DispatcherState;

    /// The state between reports.
    closed spec fn view(&self) -> DispatcherState {
        self.state
    }
}

impl Default for DeviceDispatcher {
    /// A dispatcher in the state at startup.
    fn default() -> (dispatcher: Self)
        ensures
            dispatcher.wf(),
            dispatcher@ == initial_state(),
    {
        Self::new()
    }
}

impl DeviceDispatcher {
    /// Whether the binding tables are as they were built.
    pub closed spec fn bindings_wf(&self) -> bool {
        self.bindings.wf()
    }

    /// A dispatcher is well formed when its state and its tables are.
    pub open spec fn wf(&self) -> bool {
        &&& self@.wf()
        &&& self.bindings_wf()
    }

    /// A dispatcher in the state at startup.
    pub fn new() -> (dispatcher: Self)
        ensures
            dispatcher.wf(),
            dispatcher@ == initial_state(),
    {
        DeviceDispatcher {
            state: DispatcherState {
                tablet_last_raw_pressed_buttons: ALL_RELEASED,
                pen_last_raw_pressed_button: PEN_NO_BUTTON,
                was_touching: false,
                last_x: AXIS_CENTER,
                last_y: AXIS_CENTER,
                controller: ModeController::new(),
            },
            bindings: ButtonBindings::new(),
        }
    }

    /// Every key code that a tablet button can send.
    pub fn tablet_emitted_keys(&self) -> (codes: Vec<u16>)
        requires
            self.wf(),
        ensures
            codes@ == tablet_emitted(),
            codes_fit(codes@),
    {
        self.bindings.tablet_emitted_keys()
    }

    /// Every key code that a pen button can send.
    pub fn pen_emitted_keys(&self) -> (codes: Vec<u16>)
        requires
            self.wf(),
        ensures
            codes@ == pen_emitted(),
            codes_fit(codes@),
    {
        self.bindings.pen_emitted_keys()
    }

    /// The state between reports.
    pub fn state(&self) -> (state: DispatcherState)
        ensures
            state == self@,
    {
        self.state
    }

    /// Smooths a raw position and remembers the result.
    pub fn smooth_coordinates(&mut self, x: i32, y: i32) -> (position: (i32, i32))
        requires
            old(self).wf(),
            0 <= x <= RAW_MAX,
            0 <= y <= RAW_MAX,
        ensures
            final(self).wf(),
            position.0 == smoothed(old(self)@.controller.mode, old(self)@.last_x as int, x as int),
            position.1 == smoothed(old(self)@.controller.mode, old(self)@.last_y as int, y as int),
            final(self)@ == (DispatcherState {
                last_x: position.0,
                last_y: position.1,
                ..old(self)@
            }),
    {
        let (smoothed_x, smoothed_y): (i32, i32) = match self.state.controller.mode {
            Mode::Mouse => ((self.state.last_x + x) / 2, (self.state.last_y + y) / 2),
            Mode::Tablet => ((self.state.last_x * 3 + x) / 4, (self.state.last_y * 3 + y) / 4),
        };
        self.state.last_x = smoothed_x;
        self.state.last_y = smoothed_y;
        (smoothed_x, smoothed_y)
    }

    /// The barrier that ends a report.
    pub fn syn(&self) -> (actions: Vec<Action>)
        ensures
            actions@ == syn_actions(),
    {
        let mut actions: Vec<Action> = Vec::new();
        actions.push(Action::Emit { sink: Sink::Keyboard, event: SinkEvent::Sync });
        actions.push(Action::Emit { sink: Sink::Pen, event: SinkEvent::Sync });
        actions
    }

    /// Whether `dispatch` takes this report in the present state.
    pub fn accepts(&self, raw_data: &RawDataReader) -> (accepted: bool)
        ensures
            accepted == accepts_report(self@, raw_data.data@),
    {
        if raw_data.data.len() != REPORT_LEN {
            return false;
        }
        let current: u8 = raw_data.pen_buttons();
        match pen_button_edge(self.state.pen_last_raw_pressed_button, current) {
            Some((_, code)) => code == PEN_BUTTON_LOWER || code == PEN_BUTTON_UPPER,
            None => true,
        }
    }

    /// Takes one report: remembers what it holds and returns the actions that
    /// are due for it, in their order.
    pub fn dispatch(&mut self, raw_data: &RawDataReader) -> (actions: Vec<Action>)
        requires
            old(self).wf(),
            accepts_report(old(self)@, raw_data.data@),
        ensures
            final(self).wf(),
            final(self)@ == dispatch_state(old(self)@, raw_data.data@),
            actions@ == dispatch_actions(old(self)@, raw_data.data@),
    {
        let pen = self.emit_pen_events(raw_data);
        let mut tablet = self.emit_tablet_events(raw_data);
        let mut actions: Vec<Action> = pen.buttons;
        let mut pointer: Vec<Action> = pen.pointer;
        let mut barrier: Vec<Action> = self.syn();
        actions.append(&mut tablet);
        actions.append(&mut pointer);
        actions.append(&mut barrier);
        actions
    }

    /// Looks at all tablet buttons of a report and remembers its flags.
    pub fn emit_tablet_events(&mut self, raw_data: &RawDataReader) -> (actions: Vec<Action>)
        requires
            old(self).wf(),
            raw_data.wf(),
        ensures
            final(self).wf(),
            final(self)@ == (DispatcherState {
                tablet_last_raw_pressed_buttons: tablet_buttons_of(raw_data.data@),
                controller: tablet_controller_below(
                    old(self)@.controller,
                    old(self)@.tablet_last_raw_pressed_buttons,
                    tablet_buttons_of(raw_data.data@),
                    TABLET_ID_END,
                ),
                ..old(self)@
            }),
            actions@ == tablet_actions_below(
                old(self)@.controller,
                old(self)@.tablet_last_raw_pressed_buttons,
                tablet_buttons_of(raw_data.data@),
                TABLET_ID_END,
            ),
    {
        let raw_button_as_binary_flags: u16 = raw_data.tablet_buttons_as_binary_flags();
        let actions = self.binary_flags_to_tablet_key_events(raw_button_as_binary_flags);
        self.state.tablet_last_raw_pressed_buttons = raw_button_as_binary_flags;
        actions
    }

    /// Looks at the tablet buttons one by one, by rising id.
    pub fn binary_flags_to_tablet_key_events(&mut self, raw_button_as_flags: u16) -> (actions: Vec<
        Action,
    >)
        requires
            old(self).wf(),
        ensures
            final(self).wf(),
            final(self)@ == (DispatcherState {
                controller: tablet_controller_below(
                    old(self)@.controller,
                    old(self)@.tablet_last_raw_pressed_buttons,
                    raw_button_as_flags,
                    TABLET_ID_END,
                ),
                ..old(self)@
            }),
            actions@ == tablet_actions_below(
                old(self)@.controller,
                old(self)@.tablet_last_raw_pressed_buttons,
                raw_button_as_flags,
                TABLET_ID_END,
            ),
    {
        let ghost before = self@;
        let mut actions: Vec<Action> = Vec::new();
        let mut id: u8 = 0;
        while id < TABLET_ID_END
            invariant
                id <= TABLET_ID_END,
                self.wf(),
                self@ == (DispatcherState {
                    controller: tablet_controller_below(
                        before.controller,
                        before.tablet_last_raw_pressed_buttons,
                        raw_button_as_flags,
                        id,
                    ),
                    ..before
                }),
                actions@ == tablet_actions_below(
                    before.controller,
                    before.tablet_last_raw_pressed_buttons,
                    raw_button_as_flags,
                    id,
                ),
            decreases TABLET_ID_END - id,
        {
            if id != 10 && id != 11 {
                let mut step = self.emit_tablet_key_event(id, raw_button_as_flags);
                actions.append(&mut step);
            }
            id += 1;
        }
        actions
    }

    /// Looks at one tablet button: changes a setting, or returns the key
    /// events of its chord, or does nothing.
    pub fn emit_tablet_key_event(&mut self, i: u8, raw_button_as_flags: u16) -> (actions: Vec<
        Action,
    >)
        requires
            old(self).wf(),
            is_tablet_button(i),
        ensures
            final(self).wf(),
            final(self)@ == (DispatcherState {
                controller: tablet_key_controller(
                    old(self)@.controller,
                    old(self)@.tablet_last_raw_pressed_buttons,
                    i,
                    raw_button_as_flags,
                ),
                ..old(self)@
            }),
            actions@ == tablet_key_actions(
                old(self)@.controller,
                old(self)@.tablet_last_raw_pressed_buttons,
                i,
                raw_button_as_flags,
            ),
    {
        let mut actions: Vec<Action> = Vec::new();
        let previous: u16 = self.state.tablet_last_raw_pressed_buttons;
        if let Some(transition) = tablet_button_edge(previous, raw_button_as_flags, i) {
            let pressed: bool = match transition {
                Transition::Pressed => true,
                _ => false,
            };
            if pressed && i == AREA_REDUCE_ID {
                let notice = self.state.controller.reduce_area();
                actions.push(Action::Notify { notice });
            } else if pressed && i == AREA_ENLARGE_ID {
                let notice = self.state.controller.enlarge_area();
                actions.push(Action::Notify { notice });
            } else if pressed && i == MODE_TOGGLE_ID {
                let notice = self.state.controller.toggle_mode();
                actions.push(Action::Notify { notice });
            } else if let Some(codes) = self.bindings.tablet_keys(i) {
                push_synced_chord(&mut actions, Sink::Keyboard, codes, transition.value());
            }
        }
        actions
    }

    /// Does the pen part of a report: the pen buttons, the pressure, the
    /// position and the touch of the tip.
    pub fn emit_pen_events(&mut self, raw_data: &RawDataReader) -> (actions: PenActions)
        requires
            old(self).wf(),
            accepts_report(old(self)@, raw_data.data@),
        ensures
            final(self).wf(),
            final(self)@ == pen_state(old(self)@, raw_data.data@),
            actions.buttons@ == pen_button_actions(
                old(self)@.pen_last_raw_pressed_button,
                pen_buttons_of(raw_data.data@),
            ),
            actions.pointer@ == pointer_actions(old(self)@, raw_data.data@),
    {
        let raw_pen_buttons: u8 = raw_data.pen_buttons();
        let buttons = self.raw_pen_buttons_to_pen_key_events(raw_pen_buttons);
        self.state.pen_last_raw_pressed_button = raw_pen_buttons;

        let normalized_pressure: i32 = match self.state.controller.mode {
            Mode::Mouse => Self::normalize_pressure_mode(
                raw_data.pressure(),
                MOUSE_THRESHOLD,
                MOUSE_SCALING,
            ),
            Mode::Tablet => Self::normalize_pressure_mode(
                raw_data.pressure(),
                TABLET_THRESHOLD,
                TABLET_SCALING,
            ),
        };

        let (smoothed_x, smoothed_y): (i32, i32) = self.smooth_coordinates(
            raw_data.x_axis(),
            raw_data.y_axis(),
        );

        let mut pointer = self.raw_pen_abs_to_pen_abs_events(
            smoothed_x,
            smoothed_y,
            normalized_pressure,
        );
        let mut touch = self.pen_emit_touch(raw_data);
        pointer.append(&mut touch);
        PenActions { buttons, pointer }
    }

    /// Normalised pressure for a threshold and a factor.
    pub fn normalize_pressure_mode(raw_pressure: i32, threshold: i32, scaling: i32) -> (pressure:
        i32)
        requires
            PRESSURE_BASE - raw_pressure <= i32::MAX,
            PRESSURE_BASE - raw_pressure > threshold ==> i32::MIN <= (PRESSURE_BASE - raw_pressure)
                * scaling <= i32::MAX,
        ensures
            pressure == normalize(raw_pressure as int, threshold as int, scaling as int),
    {
        let depth: i32 = PRESSURE_BASE - raw_pressure;
        if depth <= threshold {
            0
        } else {
            depth * scaling
        }
    }

    /// Normalised pressure by which touch is detected.
    pub fn normalize_pressure(raw_pressure: i32) -> (pressure: i32)
        requires
            (PRESSURE_BASE - raw_pressure) * TOUCH_SCALING <= i32::MAX,
        ensures
            pressure == normalize(
                raw_pressure as int,
                TOUCH_THRESHOLD as int,
                TOUCH_SCALING as int,
            ),
    {
        let depth: i32 = PRESSURE_BASE - raw_pressure;
        if depth <= TOUCH_THRESHOLD {
            0
        } else {
            depth * TOUCH_SCALING
        }
    }

    /// The three axis events for a smoothed position and a normalised
    /// pressure.
    pub fn raw_pen_abs_to_pen_abs_events(
        &self,
        x_axis: i32,
        y_axis: i32,
        pressure: i32,
    ) -> (actions: Vec<Action>)
        requires
            self.wf(),
            0 <= x_axis <= RAW_MAX,
            0 <= y_axis <= RAW_MAX,
        ensures
            actions@ == axis_actions(
                self@.controller,
                x_axis as int,
                y_axis as int,
                pressure as int,
            ),
    {
        let x: i32 = remap_coordinate(&self.state.controller, x_axis, WINDOW_CENTER_X);
        let y: i32 = remap_coordinate(&self.state.controller, y_axis, WINDOW_CENTER_Y);
        let mut actions: Vec<Action> = Vec::new();
        actions.push(
            Action::Emit {
                sink: Sink::Pen,
                event: SinkEvent::AbsoluteAxis { axis: Axis::X, value: x },
            },
        );
        actions.push(
            Action::Emit {
                sink: Sink::Pen,
                event: SinkEvent::AbsoluteAxis { axis: Axis::Y, value: y },
            },
        );
        actions.push(
            Action::Emit {
                sink: Sink::Pen,
                event: SinkEvent::AbsoluteAxis { axis: Axis::Pressure, value: pressure },
            },
        );
        actions
    }

    /// The touch event of a report, if the tip touched down or lifted, and
    /// remembers whether it touches.
    pub fn pen_emit_touch(&mut self, raw_data: &RawDataReader) -> (actions: Vec<Action>)
        requires
            old(self).wf(),
            raw_data.wf(),
        ensures
            final(self).wf(),
            final(self)@ == (DispatcherState {
                was_touching: is_touching(pressure_of(raw_data.data@)),
                ..old(self)@
            }),
            actions@ == touch_actions(old(self)@.was_touching, pressure_of(raw_data.data@)),
    {
        let touching: bool = Self::normalize_pressure(raw_data.pressure()) > 0;
        let mut actions: Vec<Action> = Vec::new();
        if let Some(transition) = touch_edge(self.state.was_touching, touching) {
            actions.push(
                Action::Emit {
                    sink: Sink::Pen,
                    event: SinkEvent::Key { code: btn_touch(), value: transition.value() },
                },
            );
        }
        self.state.was_touching = touching;
        actions
    }

    /// The key events for the pen buttons, by the code of this report and
    /// that of the last one.
    pub fn raw_pen_buttons_to_pen_key_events(&self, pen_button: u8) -> (actions: Vec<Action>)
        requires
            self.wf(),
            pen_edge_is_bound(self@.pen_last_raw_pressed_button, pen_button),
        ensures
            actions@ == pen_button_actions(self@.pen_last_raw_pressed_button, pen_button),
    {
        let mut actions: Vec<Action> = Vec::new();
        if let Some((transition, code)) = pen_button_edge(
            self.state.pen_last_raw_pressed_button,
            pen_button,
        ) {
            if let Some(codes) = self.bindings.pen_keys(code) {
                push_synced_chord(&mut actions, Sink::Pen, codes, transition.value());
            }
        }
        actions
    }
}

} // verus!
