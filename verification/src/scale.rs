//! The adjustable size of the mouse area.
//!
//! The scale is the fraction of the tablet's input range that Mouse mode
//! stretches over the whole output range. It is kept as a whole number of
//! billionths, between one tenth and four tenths.

use vstd::prelude::*;

verus! {

/// How many units of the stored number make up a scale of one.
pub const SCALE_UNIT: u32 = 1_000_000_000;

/// The smallest scale, one tenth.
pub const MIN_SCALE: u32 = 100_000_000;

/// The largest scale, four tenths.
pub const MAX_SCALE: u32 = 400_000_000;

/// The scale at startup, three tenths.
pub const INITIAL_SCALE: u32 = 300_000_000;

/// Extent of the input range of which the scale takes a fraction.
pub const INPUT_RANGE: i32 = 4096;

/// Whether a number of billionths lies between the smallest and the largest
/// scale.
pub open spec fn scale_in_bounds(scale: int) -> bool {
    MIN_SCALE <= scale <= MAX_SCALE
}

/// The scale after one step down: eight tenths of `scale`, rounded down to a
/// whole number of billionths, and not less than the smallest scale.
pub open spec fn reduced_scale(scale: int) -> int {
    let product = scale * 4 / 5;
    if product < MIN_SCALE {
        MIN_SCALE as int
    } else {
        product
    }
}

/// The scale after one step up: twelve tenths of `scale`, rounded down to a
/// whole number of billionths, and not more than the largest scale.
pub open spec fn enlarged_scale(scale: int) -> int {
    let product = scale * 6 / 5;
    if product > MAX_SCALE {
        MAX_SCALE as int
    } else {
        product
    }
}

/// Half-extent of the window that Mouse mode reads: the input range times the
/// scale, rounded down, and at least 1.
pub open spec fn window_range(scale: int) -> int {
    let range = (INPUT_RANGE as int) * scale / (SCALE_UNIT as int);
    if range < 1 {
        1
    } else {
        range
    }
}

/// The whole number by which Mouse mode multiplies a distance from the
/// window's centre.
pub open spec fn scale_factor(scale: int) -> int {
    (INPUT_RANGE as int) / window_range(scale)
}

/// The scale after a run of steps, the first step first; `true` is a step up,
/// `false` a step down.
pub open spec fn scale_after(start: int, steps_up: Seq<bool>) -> int
    decreases steps_up.len(),
{
    if steps_up.len() == 0 {
        start
    } else {
        let before = scale_after(start, steps_up.drop_last());
        if steps_up.last() {
            enlarged_scale(before)
        } else {
            reduced_scale(before)
        }
    }
}

/// However many steps are taken, up or down and in any order, the scale stays
/// between one tenth and four tenths.
pub proof fn lemma_scale_stays_in_bounds(start: int, steps_up: Seq<bool>)
    requires
        scale_in_bounds(start),
    ensures
        scale_in_bounds(scale_after(start, steps_up)),
    decreases steps_up.len(),
{
    if steps_up.len() > 0 {
        lemma_scale_stays_in_bounds(start, steps_up.drop_last());
    }
}

/// With a scale in bounds the window is between 409 and 1638 units wide, and
/// the factor between 2 and 10.
pub proof fn lemma_window_of_bounded_scale(scale: int)
    requires
        scale_in_bounds(scale),
    ensures
        409 <= window_range(scale) <= 1638,
        2 <= scale_factor(scale) <= 10,
{
    let range = window_range(scale);
    assert(2 <= 4096int / range <= 10) by (nonlinear_arith)
        requires
            409 <= range <= 1638,
    ;
}

/// The size of the mouse area, in billionths.
#[derive(Clone, Copy, Debug, PartialEq, Eq)]
pub struct AreaScale {
    pub billionths: u32,
}

impl View for AreaScale {
    type V = int;

    /// The scale in billionths.
    open spec fn view(&self) -> int {
        self.billionths as int
    }
}

impl AreaScale {
    /// A scale is well formed when it lies between one tenth and four tenths.
    pub open spec fn wf(&self) -> bool {
        scale_in_bounds(self@)
    }

    /// The scale at startup.
    pub fn initial() -> (scale: Self)
        ensures
            scale.wf(),
            scale@ == INITIAL_SCALE,
    {
        AreaScale { billionths: INITIAL_SCALE }
    }

    /// The scale one step down.
    pub fn reduced(&self) -> (scale: Self)
        requires
            self.wf(),
        ensures
            scale.wf(),
            scale@ == reduced_scale(self@),
    {
        let product: u32 = self.billionths * 4 / 5;
        if product < MIN_SCALE {
            AreaScale { billionths: MIN_SCALE }
        } else {
            AreaScale { billionths: product }
        }
    }

    /// The scale one step up.
    pub fn enlarged(&self) -> (scale: Self)
        requires
            self.wf(),
        ensures
            scale.wf(),
            scale@ == enlarged_scale(self@),
    {
        let product: u32 = self.billionths * 6 / 5;
        if product > MAX_SCALE {
            AreaScale { billionths: MAX_SCALE }
        } else {
            AreaScale { billionths: product }
        }
    }

    /// Half-extent of the window that Mouse mode reads. It is at least 1, so
    /// that it can divide.
    pub fn range(&self) -> (range: i32)
        ensures
            range == window_range(self@),
            1 <= range,
    {
        let wide: u64 = (INPUT_RANGE as u64) * (self.billionths as u64) / (SCALE_UNIT as u64);
        let range: i32 = wide as i32;
        if range < 1 {
            1
        } else {
            range
        }
    }

    /// The scale in percent, rounded to the nearest whole number.
    pub fn percent(&self) -> (percent: u32)
        ensures
            percent == (self@ + 5_000_000) / 10_000_000,
            self.wf() ==> 10 <= percent <= 40,
    {
        ((self.billionths as u64 + 5_000_000u64) / 10_000_000u64) as u32
    }
}

} // verus!
