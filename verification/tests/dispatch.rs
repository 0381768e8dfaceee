use evdev::Key;
use tablet_driver::dispatcher::DeviceDispatcher;
use tablet_driver::events::{Action, Axis, Mode, Notice, Sink, SinkEvent};
use tablet_driver::report::RawDataReader;
use tablet_driver::scale::AreaScale;
use tablet_driver::state::DispatcherState;

fn dispatch_key(sink: Sink, code: u16, value: i32) -> Action {
    Action::Emit { sink, event: SinkEvent::Key { code, value } }
}

fn dispatch_sync(sink: Sink) -> Action {
    Action::Emit { sink, event: SinkEvent::Sync }
}

fn dispatch_axis(axis: Axis, value: i32) -> Action {
    Action::Emit { sink: Sink::Pen, event: SinkEvent::AbsoluteAxis { axis, value } }
}

fn dispatch_barrier() -> Vec<Action> {
    vec![dispatch_sync(Sink::Keyboard), dispatch_sync(Sink::Pen)]
}

fn dispatch_report(x: u16, y: u16, pressure: u16, pen: u8, flags: u16) -> RawDataReader {
    let mut reader = RawDataReader::new();
    reader.data[1] = (x >> 8) as u8;
    reader.data[2] = (x & 0xFF) as u8;
    reader.data[3] = (y >> 8) as u8;
    reader.data[4] = (y & 0xFF) as u8;
    reader.data[5] = (pressure >> 8) as u8;
    reader.data[6] = (pressure & 0xFF) as u8;
    reader.data[9] = pen;
    reader.data[11] = (flags & 0xFF) as u8;
    reader.data[12] = (flags >> 8) as u8;
    reader
}

fn dispatch_pen_keys(actions: &[Action], code: u16) -> Vec<i32> {
    let mut values = Vec::new();
    for action in actions {
        if let Action::Emit { sink: Sink::Pen, event: SinkEvent::Key { code: found, value } } =
            action
        {
            if *found == code {
                values.push(*value);
            }
        }
    }
    values
}

#[test]
fn startup_state() {
    let dispatcher = DeviceDispatcher::new();
    assert_eq!(
        dispatcher.state(),
        DispatcherState {
            tablet_last_raw_pressed_buttons: 0xFFFF,
            pen_last_raw_pressed_button: 2,
            was_touching: false,
            last_x: 2048,
            last_y: 2048,
            controller: tablet_driver::controller::ModeController {
                mode: Mode::Mouse,
                mouse_area_scale: AreaScale { billionths: 300_000_000 },
            },
        }
    );
}

#[test]
fn default_is_the_startup_state() {
    let dispatcher = DeviceDispatcher::default();
    assert_eq!(dispatcher.state(), DeviceDispatcher::new().state());
}

#[test]
fn barrier_goes_to_the_keyboard_then_to_the_pen() {
    let dispatcher = DeviceDispatcher::new();
    assert_eq!(dispatcher.syn(), dispatch_barrier());
}

#[test]
fn idle_report_gives_axes_and_barrier() {
    let mut dispatcher = DeviceDispatcher::new();
    let report = dispatch_report(2048, 2048, 2000, 2, 0xFFFF);
    assert!(dispatcher.accepts(&report));
    assert_eq!(
        dispatcher.dispatch(&report),
        vec![
            dispatch_axis(Axis::X, 4096),
            dispatch_axis(Axis::Y, 2048),
            dispatch_axis(Axis::Pressure, 0),
            dispatch_sync(Sink::Keyboard),
            dispatch_sync(Sink::Pen),
        ]
    );
}

#[test]
fn actions_come_in_the_fixed_order() {
    let mut dispatcher = DeviceDispatcher::new();
    let report = dispatch_report(0, 2048, 1000, 4, 0xFF7E);
    assert!(dispatcher.accepts(&report));
    assert_eq!(
        dispatcher.dispatch(&report),
        vec![
            dispatch_key(Sink::Pen, 0x14b, 1),
            dispatch_sync(Sink::Pen),
            dispatch_key(Sink::Keyboard, 15, 1),
            dispatch_sync(Sink::Keyboard),
            dispatch_key(Sink::Keyboard, 29, 1),
            dispatch_key(Sink::Keyboard, 74, 1),
            dispatch_sync(Sink::Keyboard),
            dispatch_axis(Axis::X, 2048),
            dispatch_axis(Axis::Y, 2048),
            dispatch_axis(Axis::Pressure, 2000),
            dispatch_key(Sink::Pen, 0x14a, 1),
            dispatch_sync(Sink::Keyboard),
            dispatch_sync(Sink::Pen),
        ]
    );
    assert_eq!(
        dispatcher.state(),
        DispatcherState {
            tablet_last_raw_pressed_buttons: 0xFF7E,
            pen_last_raw_pressed_button: 4,
            was_touching: true,
            last_x: 1024,
            last_y: 2048,
            controller: DeviceDispatcher::new().state().controller,
        }
    );
}

#[test]
fn second_report_holds_what_the_first_pressed() {
    let mut dispatcher = DeviceDispatcher::new();
    let report = dispatch_report(0, 2048, 1000, 4, 0xFF7E);
    dispatcher.dispatch(&report);
    assert!(dispatcher.accepts(&report));
    assert_eq!(
        dispatcher.dispatch(&report),
        vec![
            dispatch_key(Sink::Pen, 0x14b, 2),
            dispatch_sync(Sink::Pen),
            dispatch_key(Sink::Keyboard, 15, 2),
            dispatch_sync(Sink::Keyboard),
            dispatch_key(Sink::Keyboard, 29, 2),
            dispatch_key(Sink::Keyboard, 74, 2),
            dispatch_sync(Sink::Keyboard),
            dispatch_axis(Axis::X, 512),
            dispatch_axis(Axis::Y, 2048),
            dispatch_axis(Axis::Pressure, 2000),
            dispatch_sync(Sink::Keyboard),
            dispatch_sync(Sink::Pen),
        ]
    );
}

#[test]
fn pen_codes_2_4_4_2_press_hold_release() {
    let mut dispatcher = DeviceDispatcher::new();
    let mut values = Vec::new();
    let mut per_report = Vec::new();
    for pen in [2u8, 4, 4, 2] {
        let report = dispatch_report(2048, 2048, 2000, pen, 0xFFFF);
        assert!(dispatcher.accepts(&report));
        let actions = dispatcher.dispatch(&report);
        let found = dispatch_pen_keys(&actions, Key::BTN_STYLUS.code());
        per_report.push(found.len());
        values.extend(found);
        assert!(dispatch_pen_keys(&actions, Key::BTN_STYLUS2.code()).is_empty());
    }
    assert_eq!(values, vec![1, 2, 0]);
    assert_eq!(per_report, vec![0, 1, 1, 1]);
}

#[test]
fn pen_chord_is_followed_by_its_own_sync() {
    let mut dispatcher = DeviceDispatcher::new();
    let report = dispatch_report(2048, 2048, 2000, 6, 0xFFFF);
    let actions = dispatcher.dispatch(&report);
    assert_eq!(actions[0], dispatch_key(Sink::Pen, Key::BTN_STYLUS2.code(), 1));
    assert_eq!(actions[1], dispatch_sync(Sink::Pen));
    assert_eq!(actions.len(), 7);
}

#[test]
fn second_pen_button_press_hold_release() {
    let mut dispatcher = DeviceDispatcher::new();
    let mut values = Vec::new();
    for pen in [6u8, 6, 6, 2, 2] {
        let report = dispatch_report(2048, 2048, 2000, pen, 0xFFFF);
        let actions = dispatcher.dispatch(&report);
        values.extend(dispatch_pen_keys(&actions, 0x14c));
    }
    assert_eq!(values, vec![1, 2, 2, 0]);
}

#[test]
fn touch_gives_one_press_and_one_release() {
    let mut dispatcher = DeviceDispatcher::new();
    let mut per_report = Vec::new();
    for pressure in [2000u16, 1300, 1299, 1000, 1500] {
        let report = dispatch_report(2048, 2048, pressure, 2, 0xFFFF);
        let actions = dispatcher.dispatch(&report);
        per_report.push(dispatch_pen_keys(&actions, Key::BTN_TOUCH.code()));
    }
    assert_eq!(per_report, vec![vec![], vec![], vec![1], vec![], vec![0]]);
}

#[test]
fn touch_comes_after_the_axes_and_before_the_barrier() {
    let mut dispatcher = DeviceDispatcher::new();
    let report = dispatch_report(2048, 2048, 1299, 2, 0xFFFF);
    assert_eq!(
        dispatcher.dispatch(&report),
        vec![
            dispatch_axis(Axis::X, 4096),
            dispatch_axis(Axis::Y, 2048),
            dispatch_axis(Axis::Pressure, 0),
            dispatch_key(Sink::Pen, 0x14a, 1),
            dispatch_sync(Sink::Keyboard),
            dispatch_sync(Sink::Pen),
        ]
    );
    assert!(dispatcher.state().was_touching);
}

#[test]
fn touch_does_not_go_by_the_mode() {
    let mut mouse = DeviceDispatcher::new();
    let mut tablet = DeviceDispatcher::new();
    tablet.emit_tablet_key_event(12, 0xEFFF);
    for pressure in [1490u16, 1489, 1300, 1299, 1200, 1199, 1299, 1300] {
        let report = dispatch_report(2048, 2048, pressure, 2, 0xFFFF);
        let from_mouse = dispatch_pen_keys(&mouse.dispatch(&report), 0x14a);
        let from_tablet = dispatch_pen_keys(&tablet.dispatch(&report), 0x14a);
        assert_eq!(from_mouse, from_tablet);
        assert_eq!(mouse.state().was_touching, pressure <= 1299);
    }
}

#[test]
fn pressure_axis_goes_by_the_mode() {
    let mut mouse = DeviceDispatcher::new();
    let mut tablet = DeviceDispatcher::new();
    tablet.emit_tablet_key_event(12, 0xEFFF);
    let expected: [(u16, i32, i32); 6] = [
        (2000, 0, 0),
        (1490, 0, 0),
        (1489, 0, 1533),
        (1200, 0, 2400),
        (1199, 1602, 2403),
        (0, 4000, 6000),
    ];
    for (pressure, in_mouse, in_tablet) in expected {
        let report = dispatch_report(2048, 2048, pressure, 2, 0xFFFF);
        assert!(mouse.dispatch(&report).contains(&dispatch_axis(Axis::Pressure, in_mouse)));
        assert!(tablet.dispatch(&report).contains(&dispatch_axis(Axis::Pressure, in_tablet)));
    }
}

#[test]
fn mode_change_applies_from_the_next_report() {
    let mut dispatcher = DeviceDispatcher::new();
    let report = dispatch_report(1000, 3000, 1400, 2, 0xEFFF);
    assert_eq!(
        dispatcher.dispatch(&report),
        vec![
            Action::Notify { notice: Notice::ModeChanged { mode: Mode::Tablet } },
            dispatch_axis(Axis::X, 3548),
            dispatch_axis(Axis::Y, 3476),
            dispatch_axis(Axis::Pressure, 0),
            dispatch_sync(Sink::Keyboard),
            dispatch_sync(Sink::Pen),
        ]
    );
    assert_eq!(dispatcher.state().controller.mode, Mode::Tablet);
    assert_eq!(dispatcher.state().last_x, 1524);
    assert_eq!(dispatcher.state().last_y, 2524);
    assert_eq!(
        dispatcher.dispatch(&report),
        vec![
            dispatch_key(Sink::Keyboard, Key::KEY_B.code(), 2),
            dispatch_sync(Sink::Keyboard),
            dispatch_axis(Axis::X, 1393),
            dispatch_axis(Axis::Y, 2643),
            dispatch_axis(Axis::Pressure, 1800),
            dispatch_sync(Sink::Keyboard),
            dispatch_sync(Sink::Pen),
        ]
    );
    assert_eq!(dispatcher.state().controller.mode, Mode::Tablet);
}

#[test]
fn area_change_applies_from_the_next_report() {
    let mut dispatcher = DeviceDispatcher::new();
    let report = dispatch_report(1100, 2048, 2000, 2, 0xFFBF);
    assert_eq!(
        dispatcher.dispatch(&report),
        vec![
            Action::Notify {
                notice: Notice::AreaReduced { scale: AreaScale { billionths: 240_000_000 } }
            },
            dispatch_axis(Axis::X, 3698),
            dispatch_axis(Axis::Y, 2048),
            dispatch_axis(Axis::Pressure, 0),
            dispatch_sync(Sink::Keyboard),
            dispatch_sync(Sink::Pen),
        ]
    );
    assert_eq!(
        dispatcher.dispatch(&report),
        vec![
            dispatch_key(Sink::Keyboard, Key::KEY_LEFTBRACE.code(), 2),
            dispatch_sync(Sink::Keyboard),
            dispatch_axis(Axis::X, 3300),
            dispatch_axis(Axis::Y, 2048),
            dispatch_axis(Axis::Pressure, 0),
            dispatch_sync(Sink::Keyboard),
            dispatch_sync(Sink::Pen),
        ]
    );
}

#[test]
fn every_report_ends_with_the_barrier() {
    let mut dispatcher = DeviceDispatcher::new();
    let reports = [
        dispatch_report(0, 0, 0, 2, 0x0000),
        dispatch_report(65535, 65535, 65535, 4, 0xFFFF),
        dispatch_report(10, 20, 1000, 4, 0x1234),
        dispatch_report(4096, 4096, 1500, 2, 0xCFFF),
        dispatch_report(300, 200, 2100, 6, 0xFFFE),
    ];
    for report in reports.iter() {
        assert!(dispatcher.accepts(report));
        let actions = dispatcher.dispatch(report);
        assert!(actions.len() >= 5);
        assert_eq!(actions[actions.len() - 2..].to_vec(), dispatch_barrier());
        let scale = dispatcher.state().controller.mouse_area_scale.billionths;
        assert!(scale >= 100_000_000 && scale <= 400_000_000);
        assert!(dispatcher.state().last_x >= 0 && dispatcher.state().last_x <= 65535);
        assert!(dispatcher.state().last_y >= 0 && dispatcher.state().last_y <= 65535);
    }
}

#[test]
fn all_buttons_down_at_once() {
    let mut dispatcher = DeviceDispatcher::new();
    let report = dispatch_report(2048, 2048, 2000, 2, 0x0000);
    assert_eq!(
        dispatcher.dispatch(&report),
        vec![
            dispatch_key(Sink::Keyboard, 15, 1),
            dispatch_sync(Sink::Keyboard),
            dispatch_key(Sink::Keyboard, 57, 1),
            dispatch_sync(Sink::Keyboard),
            dispatch_key(Sink::Keyboard, 56, 1),
            dispatch_sync(Sink::Keyboard),
            dispatch_key(Sink::Keyboard, 29, 1),
            dispatch_sync(Sink::Keyboard),
            dispatch_key(Sink::Keyboard, 177, 1),
            dispatch_sync(Sink::Keyboard),
            dispatch_key(Sink::Keyboard, 178, 1),
            dispatch_sync(Sink::Keyboard),
            Action::Notify {
                notice: Notice::AreaReduced { scale: AreaScale { billionths: 240_000_000 } }
            },
            dispatch_key(Sink::Keyboard, 29, 1),
            dispatch_key(Sink::Keyboard, 74, 1),
            dispatch_sync(Sink::Keyboard),
            dispatch_key(Sink::Keyboard, 29, 1),
            dispatch_key(Sink::Keyboard, 78, 1),
            dispatch_sync(Sink::Keyboard),
            dispatch_key(Sink::Keyboard, 1, 1),
            dispatch_sync(Sink::Keyboard),
            Action::Notify { notice: Notice::ModeChanged { mode: Mode::Tablet } },
            Action::Notify {
                notice: Notice::AreaEnlarged { scale: AreaScale { billionths: 288_000_000 } }
            },
            dispatch_axis(Axis::X, 4096),
            dispatch_axis(Axis::Y, 2048),
            dispatch_axis(Axis::Pressure, 0),
            dispatch_sync(Sink::Keyboard),
            dispatch_sync(Sink::Pen),
        ]
    );
    assert_eq!(dispatcher.state().tablet_last_raw_pressed_buttons, 0xCC00);
}

#[test]
fn same_reports_give_the_same_actions() {
    let mut first = DeviceDispatcher::new();
    let mut second = DeviceDispatcher::new();
    let reports = [
        dispatch_report(100, 200, 1000, 4, 0xFFFE),
        dispatch_report(900, 50, 1250, 4, 0xEFFE),
        dispatch_report(4000, 3000, 1900, 2, 0xFFBF),
    ];
    for report in reports.iter() {
        let mut noisy = dispatch_report(0, 0, 0, 0, 0);
        noisy.data.copy_from_slice(&report.data);
        for offset in [0usize, 7, 8, 10, 13, 14, 40, 63] {
            noisy.data[offset] = 0xA5;
        }
        assert_eq!(first.accepts(report), second.accepts(&noisy));
        assert_eq!(first.dispatch(report), second.dispatch(&noisy));
        assert_eq!(first.state(), second.state());
    }
}

#[test]
fn report_of_wrong_length_is_not_accepted() {
    let dispatcher = DeviceDispatcher::new();
    let mut report = dispatch_report(0, 0, 2000, 2, 0xFFFF);
    report.data.pop();
    assert!(!dispatcher.accepts(&report));
    report.data.push(0);
    assert!(dispatcher.accepts(&report));
    report.data.push(0);
    assert!(!dispatcher.accepts(&report));
    report.data.clear();
    assert!(!dispatcher.accepts(&report));
}

#[test]
fn repeated_unknown_pen_code_is_not_accepted() {
    let mut dispatcher = DeviceDispatcher::new();
    let unknown = dispatch_report(2048, 2048, 2000, 0, 0xFFFF);
    let idle = dispatch_report(2048, 2048, 2000, 2, 0xFFFF);
    let button = dispatch_report(2048, 2048, 2000, 4, 0xFFFF);
    assert!(dispatcher.accepts(&unknown));
    let actions = dispatcher.dispatch(&unknown);
    assert_eq!(actions.len(), 5);
    assert_eq!(dispatcher.state().pen_last_raw_pressed_button, 0);
    assert!(!dispatcher.accepts(&unknown));
    assert!(dispatcher.accepts(&button));
    assert!(dispatcher.accepts(&idle));
    assert_eq!(dispatcher.dispatch(&button).len(), 5);
    assert!(dispatcher.accepts(&unknown));
}

#[test]
fn pen_part_keeps_buttons_and_pointer_apart() {
    let mut dispatcher = DeviceDispatcher::new();
    let report = dispatch_report(0, 2048, 1000, 4, 0xFF7E);
    let pen = dispatcher.emit_pen_events(&report);
    assert_eq!(pen.buttons, vec![dispatch_key(Sink::Pen, 0x14b, 1), dispatch_sync(Sink::Pen)]);
    assert_eq!(
        pen.pointer,
        vec![
            dispatch_axis(Axis::X, 2048),
            dispatch_axis(Axis::Y, 2048),
            dispatch_axis(Axis::Pressure, 2000),
            dispatch_key(Sink::Pen, 0x14a, 1),
        ]
    );
    assert_eq!(dispatcher.state().tablet_last_raw_pressed_buttons, 0xFFFF);
    assert_eq!(dispatcher.state().pen_last_raw_pressed_button, 4);
}

#[test]
fn pen_key_events_do_not_change_the_state() {
    let dispatcher = DeviceDispatcher::new();
    assert_eq!(dispatcher.raw_pen_buttons_to_pen_key_events(2), vec![]);
    assert_eq!(
        dispatcher.raw_pen_buttons_to_pen_key_events(4),
        vec![dispatch_key(Sink::Pen, Key::BTN_STYLUS.code(), 1), dispatch_sync(Sink::Pen)]
    );
    assert_eq!(
        dispatcher.raw_pen_buttons_to_pen_key_events(6),
        vec![dispatch_key(Sink::Pen, Key::BTN_STYLUS2.code(), 1), dispatch_sync(Sink::Pen)]
    );
    assert_eq!(dispatcher.raw_pen_buttons_to_pen_key_events(0), vec![]);
    assert_eq!(dispatcher.state(), DeviceDispatcher::new().state());
}

#[test]
fn touch_alone_remembers_the_tip() {
    let mut dispatcher = DeviceDispatcher::new();
    let down = dispatch_report(0, 0, 1000, 2, 0xFFFF);
    let up = dispatch_report(0, 0, 2000, 2, 0xFFFF);
    assert_eq!(dispatcher.pen_emit_touch(&up), vec![]);
    assert_eq!(
        dispatcher.pen_emit_touch(&down),
        vec![dispatch_key(Sink::Pen, Key::BTN_TOUCH.code(), 1)]
    );
    assert!(dispatcher.state().was_touching);
    assert_eq!(dispatcher.pen_emit_touch(&down), vec![]);
    assert_eq!(
        dispatcher.pen_emit_touch(&up),
        vec![dispatch_key(Sink::Pen, Key::BTN_TOUCH.code(), 0)]
    );
    assert!(!dispatcher.state().was_touching);
    assert_eq!(dispatcher.state().last_x, 2048);
}
