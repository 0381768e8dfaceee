//! The keys that each button stands for.
//!
//! A tablet button or a pen button is bound to a chord: one key code or
//! several, sent in the order in which the table lists them. The tables are
//! built once and never change.

use crate::edges::{
    is_pen_button, is_tablet_button, PEN_BUTTON_LOWER, PEN_BUTTON_UPPER, TABLET_ID_END,
};
use crate::keys::{
    btn_stylus, btn_stylus2, key_b, key_esc, key_kpminus, key_kpplus, key_leftalt,
    key_leftbrace, key_leftctrl, key_rightbrace, key_scrolldown, key_scrollup, key_space,
    key_tab, KEY_COUNT,
};
use std::collections::HashMap;
use vstd::prelude::*;

verus! {

broadcast use vstd::std_specs::hash::group_hash_axioms;

/// The chord of a tablet button, or `None` for an id without a button.
pub open spec fn tablet_binding(id: u8) -> Option<Seq<u16>> {
    if id == 0 {
        Some(seq![15u16])  // Tab
    } else if id == 1 {
        Some(seq![57u16])  // Space
    } else if id == 2 {
        Some(seq![56u16])  // left Alt
    } else if id == 3 {
        Some(seq![29u16])  // left Ctrl
    } else if id == 4 {
        Some(seq![177u16])  // scroll up
    } else if id == 5 {
        Some(seq![178u16])  // scroll down
    } else if id == 6 {
        Some(seq![26u16])  // left brace
    } else if id == 7 {
        Some(seq![29u16, 74u16])  // left Ctrl, keypad minus
    } else if id == 8 {
        Some(seq![29u16, 78u16])  // left Ctrl, keypad plus
    } else if id == 9 {
        Some(seq![1u16])  // Esc
    } else if id == 12 {
        Some(seq![48u16])  // B
    } else if id == 13 {
        Some(seq![27u16])  // right brace
    } else {
        None
    }
}

/// The chord of a pen button, or `None` for a code that is no button.
pub open spec fn pen_binding(code: u8) -> Option<Seq<u16>> {
    if code == 4 {
        Some(seq![0x14bu16])  // first stylus button
    } else if code == 6 {
        Some(seq![0x14cu16])  // second stylus button
    } else {
        None
    }
}

/// The key codes of the tablet buttons with an id below `end`, by rising id.
pub open spec fn tablet_keys_below(end: u8) -> Seq<u16>
    decreases end,
{
    if end == 0 {
        Seq::empty()
    } else {
        let id = (end - 1) as u8;
        match tablet_binding(id) {
            Some(codes) => tablet_keys_below(id) + codes,
            None => tablet_keys_below(id),
        }
    }
}

/// Every key code that a tablet button can send, by rising id of the button.
/// A code bound to several buttons comes once for each.
pub open spec fn tablet_emitted() -> Seq<u16> {
    tablet_keys_below(TABLET_ID_END)
}

/// Every key code that a pen button can send: the chord of the first button,
/// then that of the second.
pub open spec fn pen_emitted() -> Seq<u16> {
    pen_binding(PEN_BUTTON_LOWER).unwrap() + pen_binding(PEN_BUTTON_UPPER).unwrap()
}

/// Whether every code of the list is one that a key set has room for.
pub open spec fn codes_fit(codes: Seq<u16>) -> bool {
    forall|i: int| 0 <= i < codes.len() ==> codes[i] < KEY_COUNT
}

/// The buttons are the ids and codes that the tables bind: every tablet
/// button and every pen button has a chord, and nothing else has one.
pub proof fn lemma_buttons_are_bound(id: u8)
    ensures
        is_tablet_button(id) <==> tablet_binding(id) is Some,
        is_pen_button(id) <==> pen_binding(id) is Some,
{
}

/// Every key code in the two tables is one that a key set has room for.
pub proof fn lemma_bound_codes_fit(id: u8)
    ensures
        tablet_binding(id) matches Some(codes) ==> codes_fit(codes),
        pen_binding(id) matches Some(codes) ==> codes_fit(codes),
{
}

/// The key codes of the two tables, written out.
pub proof fn lemma_emitted_keys()
    ensures
        tablet_emitted() == seq![
            15u16,
            57u16,
            56u16,
            29u16,
            177u16,
            178u16,
            26u16,
            29u16,
            74u16,
            29u16,
            78u16,
            1u16,
            48u16,
            27u16,
        ],
        pen_emitted() == seq![0x14bu16, 0x14cu16],
{
    reveal_with_fuel(tablet_keys_below, 15);
    assert(tablet_emitted() =~= seq![
        15u16,
        57u16,
        56u16,
        29u16,
        177u16,
        178u16,
        26u16,
        29u16,
        74u16,
        29u16,
        78u16,
        1u16,
        48u16,
        27u16,
    ]);
}

/// Appends the codes of a chord to a list.
fn append_chord(codes: &mut Vec<u16>, chord: &Vec<u16>)
    ensures
        final(codes)@ == old(codes)@ + chord@,
{
    let ghost before = codes@;
    let mut i: usize = 0;
    while i < chord.len()
        invariant
            i <= chord.len(),
            codes@ == before + chord@.take(i as int),
        decreases chord.len() - i,
    {
        codes.push(chord[i]);
        i += 1;
    }
}

/// The two lookup tables.
pub struct ButtonBindings {
    tablet: HashMap<u8, Vec<u16>>,
    pen: HashMap<u8, Vec<u16>>,
}

impl ButtonBindings {
    /// The tables are well formed when they hold the chords of
    /// `tablet_binding` and `pen_binding`, and nothing else.
    pub closed spec fn wf(&self) -> bool {
        &&& forall|id: u8| #[trigger]
            self.tablet@.contains_key(id) <==> tablet_binding(id) is Some
        &&& forall|id: u8| #[trigger]
            self.tablet@.contains_key(id) ==> tablet_binding(id) == Some(self.tablet@[id]@)
        &&& forall|code: u8| #[trigger]
            self.pen@.contains_key(code) <==> pen_binding(code) is Some
        &&& forall|code: u8| #[trigger]
            self.pen@.contains_key(code) ==> pen_binding(code) == Some(self.pen@[code]@)
    }

    /// Builds the two tables.
    pub fn new() -> (bindings: Self)
        ensures
            bindings.wf(),
    {
        let mut tablet: HashMap<u8, Vec<u16>> = HashMap::new();
        tablet.insert(0, vec![key_tab()]);
        tablet.insert(1, vec![key_space()]);
        tablet.insert(2, vec![key_leftalt()]);
        tablet.insert(3, vec![key_leftctrl()]);
        tablet.insert(4, vec![key_scrollup()]);
        tablet.insert(5, vec![key_scrolldown()]);
        tablet.insert(6, vec![key_leftbrace()]);
        tablet.insert(7, vec![key_leftctrl(), key_kpminus()]);
        tablet.insert(8, vec![key_leftctrl(), key_kpplus()]);
        tablet.insert(9, vec![key_esc()]);
        tablet.insert(12, vec![key_b()]);
        tablet.insert(13, vec![key_rightbrace()]);
        let mut pen: HashMap<u8, Vec<u16>> = HashMap::new();
        pen.insert(4, vec![btn_stylus()]);
        pen.insert(6, vec![btn_stylus2()]);
        proof {
            assert forall|id: u8| #[trigger] tablet@.contains_key(id) implies tablet_binding(id)
                == Some(tablet@[id]@) by {
                assert(tablet_binding(id).unwrap() =~= tablet@[id]@);
            }
            assert forall|code: u8| #[trigger] pen@.contains_key(code) implies pen_binding(code)
                == Some(pen@[code]@) by {
                assert(pen_binding(code).unwrap() =~= pen@[code]@);
            }
        }
        ButtonBindings { tablet, pen }
    }

    /// The chord of tablet button `id`, if there is such a button.
    pub fn tablet_keys(&self, id: u8) -> (keys: Option<&Vec<u16>>)
        requires
            self.wf(),
        ensures
            match keys {
                Some(codes) => tablet_binding(id) == Some(codes@),
                None => tablet_binding(id) is None,
            },
    {
        self.tablet.get(&id)
    }

    /// The chord of the pen button with this code, if the code is a button.
    pub fn pen_keys(&self, code: u8) -> (keys: Option<&Vec<u16>>)
        requires
            self.wf(),
        ensures
            match keys {
                Some(codes) => pen_binding(code) == Some(codes@),
                None => pen_binding(code) is None,
            },
    {
        self.pen.get(&code)
    }

    /// Every key code that a tablet button can send.
    pub fn tablet_emitted_keys(&self) -> (codes: Vec<u16>)
        requires
            self.wf(),
        ensures
            codes@ == tablet_emitted(),
            codes_fit(codes@),
    {
        let mut codes: Vec<u16> = Vec::new();
        let mut id: u8 = 0;
        while id < TABLET_ID_END
            invariant
                id <= TABLET_ID_END,
                self.wf(),
                codes@ == tablet_keys_below(id),
                codes_fit(codes@),
            decreases TABLET_ID_END - id,
        {
            if let Some(chord) = self.tablet_keys(id) {
                proof {
                    lemma_bound_codes_fit(id);
                }
                append_chord(&mut codes, chord);
            }
            id += 1;
        }
        codes
    }

    /// Every key code that a pen button can send.
    pub fn pen_emitted_keys(&self) -> (codes: Vec<u16>)
        requires
            self.wf(),
        ensures
            codes@ == pen_emitted(),
            codes_fit(codes@),
    {
        let mut codes: Vec<u16> = Vec::new();
        if let Some(chord) = self.pen_keys(PEN_BUTTON_LOWER) {
            append_chord(&mut codes, chord);
        }
        if let Some(chord) = self.pen_keys(PEN_BUTTON_UPPER) {
            append_chord(&mut codes, chord);
        }
        codes
    }
}

} // verus!
