//! The fixed layout of one report, and the fields that are read from it.

use vstd::prelude::*;

verus! {

/// Number of bytes in one report.
pub const REPORT_LEN: usize = 64;

/// Offset of the high byte of the horizontal position.
pub const X_AXIS_HIGH: usize = 1;

/// Offset of the low byte of the horizontal position.
pub const X_AXIS_LOW: usize = 2;

/// Offset of the high byte of the vertical position.
pub const Y_AXIS_HIGH: usize = 3;

/// Offset of the low byte of the vertical position.
pub const Y_AXIS_LOW: usize = 4;

/// Offset of the high byte of the pen pressure.
pub const PRESSURE_HIGH: usize = 5;

/// Offset of the low byte of the pen pressure.
pub const PRESSURE_LOW: usize = 6;

/// Offset of the byte that holds the status code of the pen buttons.
pub const PEN_BUTTONS: usize = 9;

/// Offset of the byte that holds the tablet buttons 8 to 15.
pub const TABLET_BUTTONS_HIGH: usize = 12;

/// Offset of the byte that holds the tablet buttons 0 to 7.
pub const TABLET_BUTTONS_LOW: usize = 11;

/// Bits of the tablet-button field that the device never drives. They are
/// forced to one, which reads as "released".
pub const UNDRIVEN_BUTTONS: u16 = 0xCC00;

/// The number that a big-endian pair of bytes stands for.
pub open spec fn be16(high: u8, low: u8) -> int {
    high as int * 256 + low as int
}

/// Whether `offset` is one of the nine bytes of a report that carry a field.
pub open spec fn is_field_offset(offset: int) -> bool {
    ||| offset == X_AXIS_HIGH
    ||| offset == X_AXIS_LOW
    ||| offset == Y_AXIS_HIGH
    ||| offset == Y_AXIS_LOW
    ||| offset == PRESSURE_HIGH
    ||| offset == PRESSURE_LOW
    ||| offset == PEN_BUTTONS
    ||| offset == TABLET_BUTTONS_HIGH
    ||| offset == TABLET_BUTTONS_LOW
}

/// Horizontal position held in the bytes of a report.
pub open spec fn x_axis_of(bytes: Seq<u8>) -> int {
    be16(bytes[X_AXIS_HIGH as int], bytes[X_AXIS_LOW as int])
}

/// Vertical position held in the bytes of a report.
pub open spec fn y_axis_of(bytes: Seq<u8>) -> int {
    be16(bytes[Y_AXIS_HIGH as int], bytes[Y_AXIS_LOW as int])
}

/// Raw pen pressure held in the bytes of a report.
pub open spec fn pressure_of(bytes: Seq<u8>) -> int {
    be16(bytes[PRESSURE_HIGH as int], bytes[PRESSURE_LOW as int])
}

/// Tablet-button flags held in the bytes of a report, with the bits that the
/// device does not drive forced to one. A clear bit is a pressed button.
pub open spec fn tablet_buttons_of(bytes: Seq<u8>) -> u16 {
    (be16(bytes[TABLET_BUTTONS_HIGH as int], bytes[TABLET_BUTTONS_LOW as int]) as u16)
        | UNDRIVEN_BUTTONS
}

/// Status code of the pen buttons held in the bytes of a report.
pub open spec fn pen_buttons_of(bytes: Seq<u8>) -> u8 {
    bytes[PEN_BUTTONS as int]
}

/// One report of the tablet.
pub struct RawDataReader {
    pub data: Vec<u8>,
}

impl Default for RawDataReader {
    /// A report of 64 zero bytes, as `new` gives it.
    fn default() -> (reader: Self)
        ensures
            reader.wf(),
            forall|i: int| 0 <= i < REPORT_LEN ==> reader.data@[i] == 0,
    {
        Self::new()
    }
}

impl RawDataReader {
    /// A report is well formed when it holds exactly 64 bytes.
    pub open spec fn wf(&self) -> bool {
        self.data@.len() == REPORT_LEN
    }

    /// A report of 64 zero bytes, to be filled by the caller.
    pub fn new() -> (reader: Self)
        ensures
            reader.wf(),
            forall|i: int| 0 <= i < REPORT_LEN ==> reader.data@[i] == 0,
    {
        RawDataReader { data: vec![0u8; 64] }
    }

    /// Joins two bytes, the high one first.
    pub fn u16_from_2_u8(&self, high: u8, low: u8) -> (value: u16)
        ensures
            value == be16(high, low),
    {
        let wide_high: u16 = high as u16;
        let wide_low: u16 = low as u16;
        assert((wide_high << 8 | wide_low) == wide_high * 256 + wide_low) by (bit_vector)
            requires
                wide_high < 256,
                wide_low < 256,
        ;
        wide_high << 8 | wide_low
    }

    /// Horizontal position of the pen.
    pub fn x_axis(&self) -> (x: i32)
        requires
            self.wf(),
        ensures
            x == x_axis_of(self.data@),
            0 <= x <= 0xFFFF,
    {
        self.u16_from_2_u8(self.data[X_AXIS_HIGH], self.data[X_AXIS_LOW]) as i32
    }

    /// Vertical position of the pen.
    pub fn y_axis(&self) -> (y: i32)
        requires
            self.wf(),
        ensures
            y == y_axis_of(self.data@),
            0 <= y <= 0xFFFF,
    {
        self.u16_from_2_u8(self.data[Y_AXIS_HIGH], self.data[Y_AXIS_LOW]) as i32
    }

    /// Raw pressure of the pen tip. It falls as the pen is pressed harder.
    pub fn pressure(&self) -> (pressure: i32)
        requires
            self.wf(),
        ensures
            pressure == pressure_of(self.data@),
            0 <= pressure <= 0xFFFF,
    {
        self.u16_from_2_u8(self.data[PRESSURE_HIGH], self.data[PRESSURE_LOW]) as i32
    }

    /// Tablet buttons as sixteen flags; a clear bit is a pressed button.
    pub fn tablet_buttons_as_binary_flags(&self) -> (flags: u16)
        requires
            self.wf(),
        ensures
            flags == tablet_buttons_of(self.data@),
    {
        self.u16_from_2_u8(self.data[TABLET_BUTTONS_HIGH], self.data[TABLET_BUTTONS_LOW])
            | UNDRIVEN_BUTTONS
    }

    /// Status code of the pen buttons: one code, not a set of flags.
    pub fn pen_buttons(&self) -> (code: u8)
        requires
            self.wf(),
        ensures
            code == pen_buttons_of(self.data@),
    {
        self.data[PEN_BUTTONS]
    }
}

/// Decoding reads nothing but the nine field bytes: two reports that agree on
/// them decode to the same five fields, whatever their other bytes hold.
pub proof fn lemma_decode_reads_field_bytes_only(a: Seq<u8>, b: Seq<u8>)
    requires
        a.len() == REPORT_LEN,
        b.len() == REPORT_LEN,
        forall|i: int| 0 <= i < REPORT_LEN && is_field_offset(i) ==> a[i] == b[i],
    ensures
        x_axis_of(a) == x_axis_of(b),
        y_axis_of(a) == y_axis_of(b),
        pressure_of(a) == pressure_of(b),
        tablet_buttons_of(a) == tablet_buttons_of(b),
        pen_buttons_of(a) == pen_buttons_of(b),
{
    assert(is_field_offset(X_AXIS_HIGH as int));
    assert(is_field_offset(X_AXIS_LOW as int));
    assert(is_field_offset(Y_AXIS_HIGH as int));
    assert(is_field_offset(Y_AXIS_LOW as int));
    assert(is_field_offset(PRESSURE_HIGH as int));
    assert(is_field_offset(PRESSURE_LOW as int));
    assert(is_field_offset(PEN_BUTTONS as int));
    assert(is_field_offset(TABLET_BUTTONS_HIGH as int));
    assert(is_field_offset(TABLET_BUTTONS_LOW as int));
}

} // verus!
