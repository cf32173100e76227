//! The global chords, as Carbon's hot-key registration wants them.
//!
//! Every number here is a constant from Apple's headers, and a wrong one does
//! not fail: it registers a different chord, or none, silently. That is why
//! each is stated and checked rather than trusted.
use vstd::prelude::*;
use crate::tool::Action;

verus! {

/// The number a four-character code stands for: its bytes read as a
/// big-endian number.
pub open spec fn four_cc_value(code: Seq<u8>) -> int {
    code[0] * 0x100_0000 + code[1] * 0x1_0000 + code[2] * 0x100 + code[3]
}

/// A Mac "OSType": four ASCII characters read as a big-endian number.
pub fn four_cc(code: &[u8; 4]) -> (value: u32)
    ensures
        value == four_cc_value(code@),
{
    (code[0] as u32) * 0x100_0000 + (code[1] as u32) * 0x1_0000 + (code[2] as u32) * 0x100 + (code[3] as u32)
}

/// `kEventClassKeyboard`, the code of `keyb`.
pub const EVENT_CLASS_KEYBOARD: u32 = 0x6B65_7962;
/// `kEventHotKeyPressed`.
pub const EVENT_HOT_KEY_PRESSED: u32 = 5;
/// `kEventParamDirectObject`, the code of `----`.
pub const PARAM_DIRECT_OBJECT: u32 = 0x2D2D_2D2D;
/// `typeEventHotKeyID`, the code of `hkid`.
pub const TYPE_HOT_KEY_ID: u32 = 0x686B_6964;
/// Our own signature, the code of `yink`, so a hot key event can be
/// recognised as ours.
pub const SIGNATURE: u32 = 0x7969_6E6B;

/// `controlKey`, bit 12 of the modifier mask in `Events.h`.
pub const CONTROL: u32 = 0x1000;
/// `optionKey`, bit 11.
pub const OPTION: u32 = 0x0800;

/// Virtual key codes, from `HIToolbox/Events.h`: positions on an ANSI
/// keyboard, not characters, so D stays where D is on a US layout whatever
/// the active layout calls it.
pub const KEY_D: u32 = 0x02;
pub const KEY_H: u32 = 0x04;
pub const KEY_Z: u32 = 0x06;
pub const KEY_0: u32 = 0x1D;

/// Each constant is the four-character code of the name Apple gives it.
pub proof fn law_codes_are_their_names()
    ensures
        four_cc_value(seq![0x6Bu8, 0x65u8, 0x79u8, 0x62u8]) == EVENT_CLASS_KEYBOARD,
        four_cc_value(seq![0x2Du8, 0x2Du8, 0x2Du8, 0x2Du8]) == PARAM_DIRECT_OBJECT,
        four_cc_value(seq![0x68u8, 0x6Bu8, 0x69u8, 0x64u8]) == TYPE_HOT_KEY_ID,
        four_cc_value(seq![0x79u8, 0x69u8, 0x6Eu8, 0x6Bu8]) == SIGNATURE,
{
}

/// One chord and what it does.
#[derive(Clone, Copy, Debug, PartialEq, Eq)]
pub struct Chord {
    /// Carried in the hot key event, so the handler knows which one fired.
    pub id: u32,
    pub key: u32,
    pub modifiers: u32,
    pub name: &'static str,
    pub action: Action,
}

/// Control+Option with D, H, Z and 0: the Windows chords, with Option in
/// the place of Alt. Control is not decoration: a hot key whose only
/// modifiers are Option, or Option and Shift, is refused, because those
/// produce characters on many layouts.
pub open spec fn chord_table() -> Seq<Chord> {
    seq![
        Chord { id: 1, key: KEY_D, modifiers: CONTROL | OPTION, name: "Control+Option+D", action: Action::ToggleDraw },
        Chord { id: 2, key: KEY_H, modifiers: CONTROL | OPTION, name: "Control+Option+H", action: Action::ToggleVisibility },
        Chord { id: 3, key: KEY_Z, modifiers: CONTROL | OPTION, name: "Control+Option+Z", action: Action::CycleZoom },
        Chord { id: 4, key: KEY_0, modifiers: CONTROL | OPTION, name: "Control+Option+0", action: Action::ZoomOff },
    ]
}

/// The chords this backend registers.
pub fn chords() -> (chords: [Chord; 4])
    ensures
        chords@ == chord_table(),
{
    let chords = [
        Chord { id: 1, key: KEY_D, modifiers: CONTROL | OPTION, name: "Control+Option+D", action: Action::ToggleDraw },
        Chord { id: 2, key: KEY_H, modifiers: CONTROL | OPTION, name: "Control+Option+H", action: Action::ToggleVisibility },
        Chord { id: 3, key: KEY_Z, modifiers: CONTROL | OPTION, name: "Control+Option+Z", action: Action::CycleZoom },
        Chord { id: 4, key: KEY_0, modifiers: CONTROL | OPTION, name: "Control+Option+0", action: Action::ZoomOff },
    ];
    assert(chords@ =~= chord_table());
    chords
}

/// The action of the chord carrying `id`, if one does.
pub open spec fn chord_action(id: u32) -> Option<Action> {
    if id == 1 {
        Some(Action::ToggleDraw)
    } else if id == 2 {
        Some(Action::ToggleVisibility)
    } else if id == 3 {
        Some(Action::CycleZoom)
    } else if id == 4 {
        Some(Action::ZoomOff)
    } else {
        None
    }
}

/// The action for a hot key event, if it is one of ours: our signature and
/// the id of one of our chords.
pub fn action_for(signature: u32, id: u32) -> (action: Option<Action>)
    ensures
        action == if signature == SIGNATURE { chord_action(id) } else { None },
{
    if signature != SIGNATURE {
        return None;
    }
    let table = chords();
    let mut i: usize = 0;
    while i < 4
        invariant
            i <= 4,
            signature == SIGNATURE,
            table@ == chord_table(),
            forall|j: int| 0 <= j < i ==> (#[trigger] chord_table()[j]).id != id,
        decreases 4 - i,
    {
        if table[i].id == id {
            return Some(table[i].action);
        }
        i = i + 1;
    }
    None
}

/// Every chord includes Control, survives the Option-only rule, is found by
/// its own id, and no two share an id or a key; the way back from
/// pass-through, toggling draw, is among them.
pub proof fn law_chords_are_distinct_and_recognised()
    ensures
        forall|i: int| 0 <= i < 4 ==> (#[trigger] chord_table()[i]).modifiers & CONTROL != 0,
        forall|i: int| 0 <= i < 4 ==> chord_action((#[trigger] chord_table()[i]).id) == Some(chord_table()[i].action),
        forall|i: int, j: int| 0 <= i < j < 4 ==> (#[trigger] chord_table()[i]).id != (#[trigger] chord_table()[j]).id
            && chord_table()[i].key != chord_table()[j].key,
        exists|i: int| 0 <= i < 4 && (#[trigger] chord_table()[i]).action == Action::ToggleDraw,
{
    assert((CONTROL | OPTION) & CONTROL != 0) by (bit_vector);
    assert(chord_table()[0].action == Action::ToggleDraw);
}

} // verus!
