//! Pressure and position of the pen: how the raw values of a report become the
//! values of the pressure axis and of the two position axes.

use crate::controller::ModeController;
use crate::events::Mode;
use crate::scale::{scale_factor, INPUT_RANGE};
use vstd::prelude::*;

verus! {

/// Raw pressure of a pen that is far from the surface.
pub const PRESSURE_BASE: i32 = 2000;

/// Depth below which Mouse mode reports no pressure.
pub const MOUSE_THRESHOLD: i32 = 800;

/// Factor by which Mouse mode multiplies a depth.
pub const MOUSE_SCALING: i32 = 2;

/// Depth below which Tablet mode reports no pressure.
pub const TABLET_THRESHOLD: i32 = 510;

/// Factor by which Tablet mode multiplies a depth.
pub const TABLET_SCALING: i32 = 3;

/// Depth below which the pen does not count as touching, in either mode.
pub const TOUCH_THRESHOLD: i32 = 700;

/// Factor of the pressure by which touch is detected.
pub const TOUCH_SCALING: i32 = 3;

/// Largest value of a position axis of the pen-like device.
pub const AXIS_MAX: i32 = 4096;

/// Largest value that the pen-like device declares for its pressure axis.
pub const PRESSURE_MAX: i32 = 5000;

/// Position that both axes of the pen take at startup, and the middle of the
/// output range.
pub const AXIS_CENTER: i32 = 2048;

/// Horizontal centre of the window that Mouse mode reads.
pub const WINDOW_CENTER_X: i32 = 1024;

/// Vertical centre of the window that Mouse mode reads.
pub const WINDOW_CENTER_Y: i32 = 2048;

/// Largest value that a position or a pressure of a report can take.
pub const RAW_MAX: i32 = 0xFFFF;

/// Normalised pressure: the depth `2000 - raw`, times `scaling`, or 0 where
/// the depth is not above `threshold`.
pub open spec fn normalize(raw: int, threshold: int, scaling: int) -> int {
    let depth = PRESSURE_BASE - raw;
    if depth <= threshold {
        0
    } else {
        depth * scaling
    }
}

/// The value of the pressure axis for a raw pressure, by mode.
pub open spec fn mode_pressure(mode: Mode, raw: int) -> int {
    match mode {
        Mode::Mouse => normalize(raw, MOUSE_THRESHOLD as int, MOUSE_SCALING as int),
        Mode::Tablet => normalize(raw, TABLET_THRESHOLD as int, TABLET_SCALING as int),
    }
}

/// Whether a raw pressure counts as the pen touching the surface. The mode has
/// no part in it.
pub open spec fn is_touching(raw: int) -> bool {
    normalize(raw, TOUCH_THRESHOLD as int, TOUCH_SCALING as int) > 0
}

/// A coordinate after smoothing: the mean of the last smoothed value and the
/// raw one in Mouse mode; three parts of the last to one of the raw in Tablet
/// mode. Both round down.
pub open spec fn smoothed(mode: Mode, last: int, raw: int) -> int {
    match mode {
        Mode::Mouse => (last + raw) / 2,
        Mode::Tablet => (3 * last + raw) / 4,
    }
}

/// A value brought into the range of a position axis.
pub open spec fn clamp_axis(value: int) -> int {
    if value < 0 {
        0
    } else if value > AXIS_MAX {
        AXIS_MAX as int
    } else {
        value
    }
}

/// A smoothed coordinate as the axis reports it. Tablet mode passes it on.
/// Mouse mode stretches its distance from `center` by the scale's factor
/// around the middle of the output range, and clamps.
pub open spec fn remapped(mode: Mode, scale: int, value: int, center: int) -> int {
    match mode {
        Mode::Mouse => clamp_axis((value - center) * scale_factor(scale) + AXIS_CENTER),
        Mode::Tablet => value,
    }
}

/// Computes `remapped` for a coordinate within the range of the raw values.
pub fn remap_coordinate(controller: &ModeController, value: i32, center: i32) -> (out: i32)
    requires
        0 <= value <= RAW_MAX,
        0 <= center <= AXIS_MAX,
    ensures
        out == remapped(controller.mode, controller.mouse_area_scale@, value as int, center as int),
{
    match controller.mode {
        Mode::Mouse => {
            let range: i32 = controller.mouse_area_scale.range();
            let factor: i32 = INPUT_RANGE / range;
            assert(0 <= factor <= 4096) by (nonlinear_arith)
                requires
                    factor == 4096int / (range as int),
                    1 <= range,
            ;
            let distance: i32 = value - center;
            assert(-16777216 <= distance * factor <= 268431360) by (nonlinear_arith)
                requires
                    -4096 <= distance <= 65535,
                    0 <= factor <= 4096,
            ;
            let scaled: i32 = distance * factor + AXIS_CENTER;
            if scaled < 0 {
                0
            } else if scaled > AXIS_MAX {
                AXIS_MAX
            } else {
                scaled
            }
        },
        Mode::Tablet => value,
    }
}

/// Smoothing keeps a coordinate within the range of the raw values.
pub proof fn lemma_smoothed_in_range(mode: Mode, last: int, raw: int)
    requires
        0 <= last <= RAW_MAX,
        0 <= raw <= RAW_MAX,
    ensures
        0 <= smoothed(mode, last, raw) <= RAW_MAX,
{
}

/// In Mouse mode a remapped coordinate lies within the axis range, whatever
/// came in; in Tablet mode it is the coordinate itself.
pub proof fn lemma_remapped_in_range(mode: Mode, scale: int, value: int, center: int)
    ensures
        mode == Mode::Mouse ==> 0 <= remapped(mode, scale, value, center) <= AXIS_MAX,
        mode == Mode::Tablet ==> remapped(mode, scale, value, center) == value,
{
}

} // verus!
