//! Key codes and key sets, as the `evdev` crate defines them.
//!
//! Nothing in this file is proved: each function states what the named item of
//! `evdev` does, and the rest of the library is verified against these
//! statements.

use evdev::{AttributeSet, Key};
use vstd::prelude::*;

verus! {

/// Number of key codes that a key set has room for; `evdev` takes it from the
/// kernel's `KEY_CNT`.
pub const KEY_COUNT: u16 = 0x300;

/// A set of keys that a virtual device declares: `evdev::AttributeSet<Key>`.
///
/// The bound of `AttributeSet` is a trait that `evdev` keeps to itself, so the
/// type cannot be named with its parameter outside `evdev`. It is held here in
/// a struct that is opaque to Verus; what it holds is spoken of through
/// `key_set_codes`. The field is public so that the set can be handed to the
/// builder of a virtual device.
#[verifier::external_body]
pub struct KeySet {
    pub keys: AttributeSet<Key>,
}

/// The codes of the keys in a key set.
pub uninterp spec fn key_set_codes(set: KeySet) -> Set<u16>;

/// `AttributeSet::<Key>::new`: a set that holds no key.
#[verifier::external_body]
pub(crate) fn key_set_new() -> (set: KeySet)
    ensures
        key_set_codes(set) == Set::<u16>::empty(),
{
    KeySet { keys: AttributeSet::new() }
}

/// `AttributeSetRef::<Key>::insert` on the key that `Key::new` makes of `code`:
/// the key joins the set and the others stay. The set is a bit array of
/// `KEY_COUNT` bits, and the call panics on a code beyond it.
#[verifier::external_body]
pub(crate) fn key_set_insert(set: &mut KeySet, code: u16)
    requires
        code < KEY_COUNT,
    ensures
        key_set_codes(*final(set)) == key_set_codes(*old(set)).insert(code),
{
    set.keys.insert(Key::new(code))
}

/// `Key::code` of `Key::KEY_TAB`, the tabulator key: 15.
#[verifier::external_body]
pub(crate) fn key_tab() -> (code: u16)
    ensures
        code == 15,
{
    Key::KEY_TAB.code()
}

/// `Key::code` of `Key::KEY_SPACE`, the space bar: 57.
#[verifier::external_body]
pub(crate) fn key_space() -> (code: u16)
    ensures
        code == 57,
{
    Key::KEY_SPACE.code()
}

/// `Key::code` of `Key::KEY_LEFTALT`, the left Alt key: 56.
#[verifier::external_body]
pub(crate) fn key_leftalt() -> (code: u16)
    ensures
        code == 56,
{
    Key::KEY_LEFTALT.code()
}

/// `Key::code` of `Key::KEY_LEFTCTRL`, the left Ctrl key: 29.
#[verifier::external_body]
pub(crate) fn key_leftctrl() -> (code: u16)
    ensures
        code == 29,
{
    Key::KEY_LEFTCTRL.code()
}

/// `Key::code` of `Key::KEY_SCROLLUP`, the scroll-up key: 177.
#[verifier::external_body]
pub(crate) fn key_scrollup() -> (code: u16)
    ensures
        code == 177,
{
    Key::KEY_SCROLLUP.code()
}

/// `Key::code` of `Key::KEY_SCROLLDOWN`, the scroll-down key: 178.
#[verifier::external_body]
pub(crate) fn key_scrolldown() -> (code: u16)
    ensures
        code == 178,
{
    Key::KEY_SCROLLDOWN.code()
}

/// `Key::code` of `Key::KEY_LEFTBRACE`, the left-brace key: 26.
#[verifier::external_body]
pub(crate) fn key_leftbrace() -> (code: u16)
    ensures
        code == 26,
{
    Key::KEY_LEFTBRACE.code()
}

/// `Key::code` of `Key::KEY_KPMINUS`, the minus key of the keypad: 74.
#[verifier::external_body]
pub(crate) fn key_kpminus() -> (code: u16)
    ensures
        code == 74,
{
    Key::KEY_KPMINUS.code()
}

/// `Key::code` of `Key::KEY_KPPLUS`, the plus key of the keypad: 78.
#[verifier::external_body]
pub(crate) fn key_kpplus() -> (code: u16)
    ensures
        code == 78,
{
    Key::KEY_KPPLUS.code()
}

/// `Key::code` of `Key::KEY_ESC`, the escape key: 1.
#[verifier::external_body]
pub(crate) fn key_esc() -> (code: u16)
    ensures
        code == 1,
{
    Key::KEY_ESC.code()
}

/// `Key::code` of `Key::KEY_B`, the letter B: 48.
#[verifier::external_body]
pub(crate) fn key_b() -> (code: u16)
    ensures
        code == 48,
{
    Key::KEY_B.code()
}

/// `Key::code` of `Key::KEY_RIGHTBRACE`, the right-brace key: 27.
#[verifier::external_body]
pub(crate) fn key_rightbrace() -> (code: u16)
    ensures
        code == 27,
{
    Key::KEY_RIGHTBRACE.code()
}

/// `Key::code` of `Key::BTN_STYLUS`, the first button of a stylus: 0x14b.
#[verifier::external_body]
pub(crate) fn btn_stylus() -> (code: u16)
    ensures
        code == 0x14b,
{
    Key::BTN_STYLUS.code()
}

/// `Key::code` of `Key::BTN_STYLUS2`, the second button of a stylus: 0x14c.
#[verifier::external_body]
pub(crate) fn btn_stylus2() -> (code: u16)
    ensures
        code == 0x14c,
{
    Key::BTN_STYLUS2.code()
}

/// `Key::code` of `Key::BTN_TOOL_PEN`, the pen as the tool in use: 0x140.
#[verifier::external_body]
pub(crate) fn btn_tool_pen() -> (code: u16)
    ensures
        code == 0x140,
{
    Key::BTN_TOOL_PEN.code()
}

/// `Key::code` of `Key::BTN_LEFT`, the primary pointer button: 0x110.
#[verifier::external_body]
pub(crate) fn btn_left() -> (code: u16)
    ensures
        code == 0x110,
{
    Key::BTN_LEFT.code()
}

/// `Key::code` of `Key::BTN_RIGHT`, the secondary pointer button: 0x111.
#[verifier::external_body]
pub(crate) fn btn_right() -> (code: u16)
    ensures
        code == 0x111,
{
    Key::BTN_RIGHT.code()
}

/// `Key::code` of `Key::BTN_TOUCH`, the tip touching the surface: 0x14a.
#[verifier::external_body]
pub(crate) fn btn_touch() -> (code: u16)
    ensures
        code == 0x14a,
{
    Key::BTN_TOUCH.code()
}

} // verus!
