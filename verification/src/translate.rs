//! Canonical key translation: maps a platform virtual-key code to a stable,
//! platform-independent key name. Total: codes outside the table fall back to
//! the one-character literal of the code, so a pressed key and its later
//! release always carry the same name.

use vstd::prelude::*;

verus! {

/// Virtual-key code of the Escape key, used by the event-hook policy that
/// treats Escape as a session terminator.
pub const ESCAPE_CODE: u8 = 0x1B;

/// True of the codes that the translation table names; all other codes take
/// the one-character fallback.
pub open spec fn is_named_code(code: u8) -> bool {
    ||| 0x30 <= code <= 0x39  // digits
    ||| 0x70 <= code <= 0x7B  // F1..F12
    ||| 0x60 <= code <= 0x69  // numpad digits
    ||| code == 0x1B || code == 0x20
    ||| code == 0xA2 || code == 0xA3 || code == 0x11
    ||| code == 0xA0 || code == 0xA1
    ||| code == 0x12 || code == 0x5B
    ||| code == 0x0D
    ||| code == 0x26 || code == 0x28 || code == 0x25 || code == 0x27
    ||| code == 0x08 || code == 0x14 || code == 0x09
    ||| code == 0x24 || code == 0x23 || code == 0x21 || code == 0x22
    ||| code == 0x2D || code == 0x2E
    ||| code == 0xC0 || code == 0xBD || code == 0xDB || code == 0xDD
    ||| code == 0xDC || code == 0xBA || code == 0xDE || code == 0xBC
    ||| code == 0xBE || code == 0xBF
}

/// The canonical name of a virtual-key code: a named entry of the table, or
/// the one-character fallback literal for every unmapped code.
pub open spec fn spec_translate(code: u8) -> Seq<char> {
    if code == 0x30 {
        "Key0"@
    } else if code == 0x31 {
        "Key1"@
    } else if code == 0x32 {
        "Key2"@
    } else if code == 0x33 {
        "Key3"@
    } else if code == 0x34 {
        "Key4"@
    } else if code == 0x35 {
        "Key5"@
    } else if code == 0x36 {
        "Key6"@
    } else if code == 0x37 {
        "Key7"@
    } else if code == 0x38 {
        "Key8"@
    } else if code == 0x39 {
        "Key9"@
    } else if code == 0x70 {
        "F1"@
    } else if code == 0x71 {
        "F2"@
    } else if code == 0x72 {
        "F3"@
    } else if code == 0x73 {
        "F4"@
    } else if code == 0x74 {
        "F5"@
    } else if code == 0x75 {
        "F6"@
    } else if code == 0x76 {
        "F7"@
    } else if code == 0x77 {
        "F8"@
    } else if code == 0x78 {
        "F9"@
    } else if code == 0x79 {
        "F10"@
    } else if code == 0x7A {
        "F11"@
    } else if code == 0x7B {
        "F12"@
    } else if code == 0x1B {
        "Escape"@
    } else if code == 0x20 {
        "Space"@
    } else if code == 0xA2 {
        "LControl"@
    } else if code == 0xA3 {
        "RControl"@
    } else if code == 0x11 {
        "Control"@
    } else if code == 0xA0 {
        "LShift"@
    } else if code == 0xA1 {
        "RShift"@
    } else if code == 0x12 {
        "LAlt"@
    } else if code == 0x5B {
        "Meta"@
    } else if code == 0x0D {
        "Enter"@
    } else if code == 0x26 {
        "Up"@
    } else if code == 0x28 {
        "Down"@
    } else if code == 0x25 {
        "Left"@
    } else if code == 0x27 {
        "Right"@
    } else if code == 0x08 {
        "Backspace"@
    } else if code == 0x14 {
        "CapsLock"@
    } else if code == 0x09 {
        "Tab"@
    } else if code == 0x24 {
        "Home"@
    } else if code == 0x23 {
        "End"@
    } else if code == 0x21 {
        "PageUp"@
    } else if code == 0x22 {
        "PageDown"@
    } else if code == 0x2D {
        "Insert"@
    } else if code == 0x2E {
        "Delete"@
    } else if code == 0x60 {
        "Numpad0"@
    } else if code == 0x61 {
        "Numpad1"@
    } else if code == 0x62 {
        "Numpad2"@
    } else if code == 0x63 {
        "Numpad3"@
    } else if code == 0x64 {
        "Numpad4"@
    } else if code == 0x65 {
        "Numpad5"@
    } else if code == 0x66 {
        "Numpad6"@
    } else if code == 0x67 {
        "Numpad7"@
    } else if code == 0x68 {
        "Numpad8"@
    } else if code == 0x69 {
        "Numpad9"@
    } else if code == 0xC0 {
        "Grave"@
    } else if code == 0xBD {
        "Minus"@
    } else if code == 0xDB {
        "LeftBracket"@
    } else if code == 0xDD {
        "RightBracket"@
    } else if code == 0xDC {
        "Backslash"@
    } else if code == 0xBA {
        "Semicolon"@
    } else if code == 0xDE {
        "Apostrophe"@
    } else if code == 0xBC {
        "Comma"@
    } else if code == 0xBE {
        "Dot"@
    } else if code == 0xBF {
        "Slash"@
    } else {
        seq![code as char]
    }
}

/// The inverse of the translation table: the code a canonical name stands
/// for, or `None` when the name is not in the vocabulary.
pub open spec fn spec_key_code(name: Seq<char>) -> Option<u8> {
    if name == "Key0"@ {
        Some(0x30u8)
    } else if name == "Key1"@ {
        Some(0x31u8)
    } else if name == "Key2"@ {
        Some(0x32u8)
    } else if name == "Key3"@ {
        Some(0x33u8)
    } else if name == "Key4"@ {
        Some(0x34u8)
    } else if name == "Key5"@ {
        Some(0x35u8)
    } else if name == "Key6"@ {
        Some(0x36u8)
    } else if name == "Key7"@ {
        Some(0x37u8)
    } else if name == "Key8"@ {
        Some(0x38u8)
    } else if name == "Key9"@ {
        Some(0x39u8)
    } else if name == "F1"@ {
        Some(0x70u8)
    } else if name == "F2"@ {
        Some(0x71u8)
    } else if name == "F3"@ {
        Some(0x72u8)
    } else if name == "F4"@ {
        Some(0x73u8)
    } else if name == "F5"@ {
        Some(0x74u8)
    } else if name == "F6"@ {
        Some(0x75u8)
    } else if name == "F7"@ {
        Some(0x76u8)
    } else if name == "F8"@ {
        Some(0x77u8)
    } else if name == "F9"@ {
        Some(0x78u8)
    } else if name == "F10"@ {
        Some(0x79u8)
    } else if name == "F11"@ {
        Some(0x7Au8)
    } else if name == "F12"@ {
        Some(0x7Bu8)
    } else if name == "Escape"@ {
        Some(0x1Bu8)
    } else if name == "Space"@ {
        Some(0x20u8)
    } else if name == "LControl"@ {
        Some(0xA2u8)
    } else if name == "RControl"@ {
        Some(0xA3u8)
    } else if name == "Control"@ {
        Some(0x11u8)
    } else if name == "LShift"@ {
        Some(0xA0u8)
    } else if name == "RShift"@ {
        Some(0xA1u8)
    } else if name == "LAlt"@ {
        Some(0x12u8)
    } else if name == "Meta"@ {
        Some(0x5Bu8)
    } else if name == "Enter"@ {
        Some(0x0Du8)
    } else if name == "Up"@ {
        Some(0x26u8)
    } else if name == "Down"@ {
        Some(0x28u8)
    } else if name == "Left"@ {
        Some(0x25u8)
    } else if name == "Right"@ {
        Some(0x27u8)
    } else if name == "Backspace"@ {
        Some(0x08u8)
    } else if name == "CapsLock"@ {
        Some(0x14u8)
    } else if name == "Tab"@ {
        Some(0x09u8)
    } else if name == "Home"@ {
        Some(0x24u8)
    } else if name == "End"@ {
        Some(0x23u8)
    } else if name == "PageUp"@ {
        Some(0x21u8)
    } else if name == "PageDown"@ {
        Some(0x22u8)
    } else if name == "Insert"@ {
        Some(0x2Du8)
    } else if name == "Delete"@ {
        Some(0x2Eu8)
    } else if name == "Numpad0"@ {
        Some(0x60u8)
    } else if name == "Numpad1"@ {
        Some(0x61u8)
    } else if name == "Numpad2"@ {
        Some(0x62u8)
    } else if name == "Numpad3"@ {
        Some(0x63u8)
    } else if name == "Numpad4"@ {
        Some(0x64u8)
    } else if name == "Numpad5"@ {
        Some(0x65u8)
    } else if name == "Numpad6"@ {
        Some(0x66u8)
    } else if name == "Numpad7"@ {
        Some(0x67u8)
    } else if name == "Numpad8"@ {
        Some(0x68u8)
    } else if name == "Numpad9"@ {
        Some(0x69u8)
    } else if name == "Grave"@ {
        Some(0xC0u8)
    } else if name == "Minus"@ {
        Some(0xBDu8)
    } else if name == "LeftBracket"@ {
        Some(0xDBu8)
    } else if name == "RightBracket"@ {
        Some(0xDDu8)
    } else if name == "Backslash"@ {
        Some(0xDCu8)
    } else if name == "Semicolon"@ {
        Some(0xBAu8)
    } else if name == "Apostrophe"@ {
        Some(0xDEu8)
    } else if name == "Comma"@ {
        Some(0xBCu8)
    } else if name == "Dot"@ {
        Some(0xBEu8)
    } else if name == "Slash"@ {
        Some(0xBFu8)
    } else {
        None
    }
}

/// A canonical key of the supported vocabulary: a name the table can produce.
pub open spec fn is_canonical_name(name: Seq<char>) -> bool {
    spec_key_code(name) is Some
}

/// The translator is stable over its vocabulary: translating the code a
/// canonical name stands for yields that very name, so a key reported
/// pressed under a name is reported released under the same name.
pub proof fn lemma_translate_stable(name: Seq<char>)
    requires
        is_canonical_name(name),
    ensures
        spec_translate(spec_key_code(name)->0) == name,
{
}

/// The translator is total: every code outside the table falls back to the
/// one-character literal of the code, never an error.
pub proof fn lemma_unmapped_fallback(code: u8)
    requires
        !is_named_code(code),
    ensures
        spec_translate(code) == seq![code as char],
{
}

/// The code a canonical name stands for, or `None` when the name is not in
/// the supported vocabulary. The exact inverse of the translation table.
pub fn translate_inverse(name: &String) -> (r: Option<u8>)
    ensures
        r == spec_key_code(name@),
{
    if *name == String::from_str("Key0") {
        Some(0x30)
    } else if *name == String::from_str("Key1") {
        Some(0x31)
    } else if *name == String::from_str("Key2") {
        Some(0x32)
    } else if *name == String::from_str("Key3") {
        Some(0x33)
    } else if *name == String::from_str("Key4") {
        Some(0x34)
    } else if *name == String::from_str("Key5") {
        Some(0x35)
    } else if *name == String::from_str("Key6") {
        Some(0x36)
    } else if *name == String::from_str("Key7") {
        Some(0x37)
    } else if *name == String::from_str("Key8") {
        Some(0x38)
    } else if *name == String::from_str("Key9") {
        Some(0x39)
    } else if *name == String::from_str("F1") {
        Some(0x70)
    } else if *name == String::from_str("F2") {
        Some(0x71)
    } else if *name == String::from_str("F3") {
        Some(0x72)
    } else if *name == String::from_str("F4") {
        Some(0x73)
    } else if *name == String::from_str("F5") {
        Some(0x74)
    } else if *name == String::from_str("F6") {
        Some(0x75)
    } else if *name == String::from_str("F7") {
        Some(0x76)
    } else if *name == String::from_str("F8") {
        Some(0x77)
    } else if *name == String::from_str("F9") {
        Some(0x78)
    } else if *name == String::from_str("F10") {
        Some(0x79)
    } else if *name == String::from_str("F11") {
        Some(0x7A)
    } else if *name == String::from_str("F12") {
        Some(0x7B)
    } else if *name == String::from_str("Escape") {
        Some(0x1B)
    } else if *name == String::from_str("Space") {
        Some(0x20)
    } else if *name == String::from_str("LControl") {
        Some(0xA2)
    } else if *name == String::from_str("RControl") {
        Some(0xA3)
    } else if *name == String::from_str("Control") {
        Some(0x11)
    } else if *name == String::from_str("LShift") {
        Some(0xA0)
    } else if *name == String::from_str("RShift") {
        Some(0xA1)
    } else if *name == String::from_str("LAlt") {
        Some(0x12)
    } else if *name == String::from_str("Meta") {
        Some(0x5B)
    } else if *name == String::from_str("Enter") {
        Some(0x0D)
    } else if *name == String::from_str("Up") {
        Some(0x26)
    } else if *name == String::from_str("Down") {
        Some(0x28)
    } else if *name == String::from_str("Left") {
        Some(0x25)
    } else if *name == String::from_str("Right") {
        Some(0x27)
    } else if *name == String::from_str("Backspace") {
        Some(0x08)
    } else if *name == String::from_str("CapsLock") {
        Some(0x14)
    } else if *name == String::from_str("Tab") {
        Some(0x09)
    } else if *name == String::from_str("Home") {
        Some(0x24)
    } else if *name == String::from_str("End") {
        Some(0x23)
    } else if *name == String::from_str("PageUp") {
        Some(0x21)
    } else if *name == String::from_str("PageDown") {
        Some(0x22)
    } else if *name == String::from_str("Insert") {
        Some(0x2D)
    } else if *name == String::from_str("Delete") {
        Some(0x2E)
    } else if *name == String::from_str("Numpad0") {
        Some(0x60)
    } else if *name == String::from_str("Numpad1") {
        Some(0x61)
    } else if *name == String::from_str("Numpad2") {
        Some(0x62)
    } else if *name == String::from_str("Numpad3") {
        Some(0x63)
    } else if *name == String::from_str("Numpad4") {
        Some(0x64)
    } else if *name == String::from_str("Numpad5") {
        Some(0x65)
    } else if *name == String::from_str("Numpad6") {
        Some(0x66)
    } else if *name == String::from_str("Numpad7") {
        Some(0x67)
    } else if *name == String::from_str("Numpad8") {
        Some(0x68)
    } else if *name == String::from_str("Numpad9") {
        Some(0x69)
    } else if *name == String::from_str("Grave") {
        Some(0xC0)
    } else if *name == String::from_str("Minus") {
        Some(0xBD)
    } else if *name == String::from_str("LeftBracket") {
        Some(0xDB)
    } else if *name == String::from_str("RightBracket") {
        Some(0xDD)
    } else if *name == String::from_str("Backslash") {
        Some(0xDC)
    } else if *name == String::from_str("Semicolon") {
        Some(0xBA)
    } else if *name == String::from_str("Apostrophe") {
        Some(0xDE)
    } else if *name == String::from_str("Comma") {
        Some(0xBC)
    } else if *name == String::from_str("Dot") {
        Some(0xBE)
    } else if *name == String::from_str("Slash") {
        Some(0xBF)
    } else {
        None
    }
}

/// Relies on `String::push`: appends exactly the given character.
#[verifier::external_body]
fn push_char(s: &mut String, c: char)
    ensures
        final(s)@ == old(s)@.push(c),
{
    s.push(c)
}

/// The one-character string holding `c`.
fn char_string(c: char) -> (s: String)
    ensures
        s@ == seq![c],
{
    let mut s = String::new();
    push_char(&mut s, c);
    proof {
        assert(s@ =~= seq![c]);
    }
    s
}

/// Translate a platform virtual-key code to its canonical name. Total: no
/// code is rejected.
pub fn translate(code: u8) -> (name: String)
    ensures
        name@ == spec_translate(code),
{
    match code {
        0x30 => String::from_str("Key0"),
        0x31 => String::from_str("Key1"),
        0x32 => String::from_str("Key2"),
        0x33 => String::from_str("Key3"),
        0x34 => String::from_str("Key4"),
        0x35 => String::from_str("Key5"),
        0x36 => String::from_str("Key6"),
        0x37 => String::from_str("Key7"),
        0x38 => String::from_str("Key8"),
        0x39 => String::from_str("Key9"),
        0x70 => String::from_str("F1"),
        0x71 => String::from_str("F2"),
        0x72 => String::from_str("F3"),
        0x73 => String::from_str("F4"),
        0x74 => String::from_str("F5"),
        0x75 => String::from_str("F6"),
        0x76 => String::from_str("F7"),
        0x77 => String::from_str("F8"),
        0x78 => String::from_str("F9"),
        0x79 => String::from_str("F10"),
        0x7A => String::from_str("F11"),
        0x7B => String::from_str("F12"),
        0x1B => String::from_str("Escape"),
        0x20 => String::from_str("Space"),
        0xA2 => String::from_str("LControl"),
        0xA3 => String::from_str("RControl"),
        0x11 => String::from_str("Control"),
        0xA0 => String::from_str("LShift"),
        0xA1 => String::from_str("RShift"),
        0x12 => String::from_str("LAlt"),
        0x5B => String::from_str("Meta"),
        0x0D => String::from_str("Enter"),
        0x26 => String::from_str("Up"),
        0x28 => String::from_str("Down"),
        0x25 => String::from_str("Left"),
        0x27 => String::from_str("Right"),
        0x08 => String::from_str("Backspace"),
        0x14 => String::from_str("CapsLock"),
        0x09 => String::from_str("Tab"),
        0x24 => String::from_str("Home"),
        0x23 => String::from_str("End"),
        0x21 => String::from_str("PageUp"),
        0x22 => String::from_str("PageDown"),
        0x2D => String::from_str("Insert"),
        0x2E => String::from_str("Delete"),
        0x60 => String::from_str("Numpad0"),
        0x61 => String::from_str("Numpad1"),
        0x62 => String::from_str("Numpad2"),
        0x63 => String::from_str("Numpad3"),
        0x64 => String::from_str("Numpad4"),
        0x65 => String::from_str("Numpad5"),
        0x66 => String::from_str("Numpad6"),
        0x67 => String::from_str("Numpad7"),
        0x68 => String::from_str("Numpad8"),
        0x69 => String::from_str("Numpad9"),
        0xC0 => String::from_str("Grave"),
        0xBD => String::from_str("Minus"),
        0xDB => String::from_str("LeftBracket"),
        0xDD => String::from_str("RightBracket"),
        0xDC => String::from_str("Backslash"),
        0xBA => String::from_str("Semicolon"),
        0xDE => String::from_str("Apostrophe"),
        0xBC => String::from_str("Comma"),
        0xBE => String::from_str("Dot"),
        0xBF => String::from_str("Slash"),
        _ => char_string(code as char),
    }
}

} // verus!
