//! The two settings that tablet buttons change: the mode and the size of the
//! mouse area.

use crate::events::{Mode, Notice};
use crate::scale::{enlarged_scale, reduced_scale, AreaScale};
use vstd::prelude::*;

verus! {

/// Id of the tablet button that shrinks the mouse area.
pub const AREA_REDUCE_ID: u8 = 6;

/// Id of the tablet button that toggles the mode.
pub const MODE_TOGGLE_ID: u8 = 12;

/// Id of the tablet button that enlarges the mouse area.
pub const AREA_ENLARGE_ID: u8 = 13;

/// The other mode.
pub open spec fn toggled(mode: Mode) -> Mode {
    match mode {
        Mode::Mouse => Mode::Tablet,
        Mode::Tablet => Mode::Mouse,
    }
}

/// The mode in use and the size of the mouse area.
#[derive(Clone, Copy, Debug, PartialEq, Eq)]
pub struct ModeController {
    pub mode: Mode,
    pub mouse_area_scale: AreaScale,
}

impl ModeController {
    /// The settings are well formed when the scale is.
    pub open spec fn wf(&self) -> bool {
        self.mouse_area_scale.wf()
    }

    /// The settings with the mouse area one step smaller.
    pub open spec fn with_area_reduced(self) -> ModeController {
        ModeController {
            mode: self.mode,
            mouse_area_scale: AreaScale {
                billionths: reduced_scale(self.mouse_area_scale@) as u32,
            },
        }
    }

    /// The settings with the mouse area one step larger.
    pub open spec fn with_area_enlarged(self) -> ModeController {
        ModeController {
            mode: self.mode,
            mouse_area_scale: AreaScale {
                billionths: enlarged_scale(self.mouse_area_scale@) as u32,
            },
        }
    }

    /// The settings with the other mode.
    pub open spec fn with_mode_toggled(self) -> ModeController {
        ModeController { mode: toggled(self.mode), mouse_area_scale: self.mouse_area_scale }
    }

    /// The settings at startup: Mouse mode, with a scale of three tenths.
    pub fn new() -> (controller: Self)
        ensures
            controller.wf(),
            controller.mode == Mode::Mouse,
            controller.mouse_area_scale@ == crate::scale::INITIAL_SCALE,
    {
        ModeController { mode: Mode::Mouse, mouse_area_scale: AreaScale::initial() }
    }

    /// Makes the mouse area one step smaller and says so.
    pub fn reduce_area(&mut self) -> (notice: Notice)
        requires
            old(self).wf(),
        ensures
            final(self).wf(),
            *final(self) == old(self).with_area_reduced(),
            notice == (Notice::AreaReduced { scale: final(self).mouse_area_scale }),
    {
        self.mouse_area_scale = self.mouse_area_scale.reduced();
        Notice::AreaReduced { scale: self.mouse_area_scale }
    }

    /// Makes the mouse area one step larger and says so.
    pub fn enlarge_area(&mut self) -> (notice: Notice)
        requires
            old(self).wf(),
        ensures
            final(self).wf(),
            *final(self) == old(self).with_area_enlarged(),
            notice == (Notice::AreaEnlarged { scale: final(self).mouse_area_scale }),
    {
        self.mouse_area_scale = self.mouse_area_scale.enlarged();
        Notice::AreaEnlarged { scale: self.mouse_area_scale }
    }

    /// Changes to the other mode and says so.
    pub fn toggle_mode(&mut self) -> (notice: Notice)
        ensures
            *final(self) == old(self).with_mode_toggled(),
            notice == (Notice::ModeChanged { mode: final(self).mode }),
    {
        self.mode =
        match self.mode {
            Mode::Mouse => Mode::Tablet,
            Mode::Tablet => Mode::Mouse,
        };
        Notice::ModeChanged { mode: self.mode }
    }
}

} // verus!
