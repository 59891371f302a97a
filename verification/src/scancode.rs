//! Key names and the scan codes (Set 1) that they stand for.
//!
//! Each group of keys is a table of its own. The extended keys (the Windows
//! keys, the right-hand Control and Alt, the arrows and the block above them)
//! have codes of the form `0xE0xx`.

use vstd::prelude::*;

use crate::text::same_text;

verus! {

/// The Windows keys.
pub open spec fn win_code(name: Seq<char>) -> Option<u32> {
    if name == "MetaLeft"@ || name == "Meta"@ {
        Some(0xE05B)
    } else if name == "MetaRight"@ || name == "RWin"@ {
        Some(0xE05C)
    } else {
        None
    }
}

/// The right-hand Control and Alt keys.
pub open spec fn right_modifier_code(name: Seq<char>) -> Option<u32> {
    if name == "ControlRight"@ {
        Some(0xE01D)
    } else if name == "AltRight"@ || name == "AltGr"@ {
        Some(0xE038)
    } else {
        None
    }
}

/// The arrow keys.
pub open spec fn arrow_code(name: Seq<char>) -> Option<u32> {
    if name == "ArrowUp"@ || name == "Up"@ || name == "VK_UP"@ {
        Some(0xE048)
    } else if name == "ArrowDown"@ || name == "Down"@ || name == "VK_DOWN"@ {
        Some(0xE050)
    } else if name == "ArrowLeft"@ || name == "Left"@ || name == "VK_LEFT"@ {
        Some(0xE04B)
    } else if name == "ArrowRight"@ || name == "Right"@ || name == "VK_RIGHT"@ {
        Some(0xE04D)
    } else {
        None
    }
}

/// The keys of the block above the arrows.
pub open spec fn navigation_code(name: Seq<char>) -> Option<u32> {
    if name == "Delete"@ || name == "Del"@ || name == "VK_DELETE"@ {
        Some(0xE053)
    } else if name == "Insert"@ || name == "Ins"@ || name == "VK_INSERT"@ {
        Some(0xE052)
    } else if name == "Home"@ || name == "VK_HOME"@ {
        Some(0xE047)
    } else if name == "End"@ || name == "VK_END"@ {
        Some(0xE04F)
    } else if name == "PageUp"@ || name == "VK_PRIOR"@ {
        Some(0xE049)
    } else if name == "PageDown"@ || name == "VK_NEXT"@ {
        Some(0xE051)
    } else {
        None
    }
}

/// The letters of a US keyboard, in either case.
pub open spec fn letter_code(name: Seq<char>) -> Option<u32> {
    if name == "a"@ || name == "A"@ {
        Some(0x1E)
    } else if name == "b"@ || name == "B"@ {
        Some(0x30)
    } else if name == "c"@ || name == "C"@ {
        Some(0x2E)
    } else if name == "d"@ || name == "D"@ {
        Some(0x20)
    } else if name == "e"@ || name == "E"@ {
        Some(0x12)
    } else if name == "f"@ || name == "F"@ {
        Some(0x21)
    } else if name == "g"@ || name == "G"@ {
        Some(0x22)
    } else if name == "h"@ || name == "H"@ {
        Some(0x23)
    } else if name == "i"@ || name == "I"@ {
        Some(0x17)
    } else if name == "j"@ || name == "J"@ {
        Some(0x24)
    } else if name == "k"@ || name == "K"@ {
        Some(0x25)
    } else if name == "l"@ || name == "L"@ {
        Some(0x26)
    } else if name == "m"@ || name == "M"@ {
        Some(0x32)
    } else if name == "n"@ || name == "N"@ {
        Some(0x31)
    } else if name == "o"@ || name == "O"@ {
        Some(0x18)
    } else if name == "p"@ || name == "P"@ {
        Some(0x19)
    } else if name == "q"@ || name == "Q"@ {
        Some(0x10)
    } else if name == "r"@ || name == "R"@ {
        Some(0x13)
    } else if name == "s"@ || name == "S"@ {
        Some(0x1F)
    } else if name == "t"@ || name == "T"@ {
        Some(0x14)
    } else if name == "u"@ || name == "U"@ {
        Some(0x16)
    } else if name == "v"@ || name == "V"@ {
        Some(0x2F)
    } else if name == "w"@ || name == "W"@ {
        Some(0x11)
    } else if name == "x"@ || name == "X"@ {
        Some(0x2D)
    } else if name == "y"@ || name == "Y"@ {
        Some(0x15)
    } else if name == "z"@ || name == "Z"@ {
        Some(0x2C)
    } else {
        None
    }
}

/// The digits of the main block.
pub open spec fn digit_code(name: Seq<char>) -> Option<u32> {
    if name == "0"@ {
        Some(0x0B)
    } else if name == "1"@ {
        Some(0x02)
    } else if name == "2"@ {
        Some(0x03)
    } else if name == "3"@ {
        Some(0x04)
    } else if name == "4"@ {
        Some(0x05)
    } else if name == "5"@ {
        Some(0x06)
    } else if name == "6"@ {
        Some(0x07)
    } else if name == "7"@ {
        Some(0x08)
    } else if name == "8"@ {
        Some(0x09)
    } else if name == "9"@ {
        Some(0x0A)
    } else {
        None
    }
}

/// The other modifiers.
pub open spec fn modifier_code(name: Seq<char>) -> Option<u32> {
    if name == "ControlLeft"@ || name == "Control"@ || name == "VK_CONTROL"@ {
        Some(0x1D)
    } else if name == "ShiftLeft"@ || name == "Shift"@ || name == "VK_SHIFT"@ {
        Some(0x2A)
    } else if name == "ShiftRight"@ {
        Some(0x36)
    } else if name == "AltLeft"@ || name == "Alt"@ || name == "VK_MENU"@ {
        Some(0x38)
    } else {
        None
    }
}

/// The editing keys and the locks.
pub open spec fn editing_code(name: Seq<char>) -> Option<u32> {
    if name == "Enter"@ || name == "Return"@ || name == "VK_RETURN"@ {
        Some(0x1C)
    } else if name == "Space"@ || name == "VK_SPACE"@ {
        Some(0x39)
    } else if name == "Tab"@ || name == "VK_TAB"@ {
        Some(0x0F)
    } else if name == "Escape"@ || name == "Esc"@ || name == "VK_ESCAPE"@ {
        Some(0x01)
    } else if name == "Backspace"@ || name == "VK_BACK"@ {
        Some(0x0E)
    } else if name == "PrintScreen"@ || name == "VK_SNAPSHOT"@ {
        Some(0xE037)
    } else if name == "CapsLock"@ || name == "VK_CAPITAL"@ {
        Some(0x3A)
    } else if name == "ScrollLock"@ || name == "VK_SCROLL"@ {
        Some(0x46)
    } else if name == "Pause"@ || name == "VK_PAUSE"@ {
        Some(0xE045)
    } else if name == "Apps"@ || name == "Menu"@ {
        Some(0xE05D)
    } else {
        None
    }
}

/// The function keys.
pub open spec fn function_code(name: Seq<char>) -> Option<u32> {
    if name == "F1"@ || name == "VK_F1"@ {
        Some(0x3B)
    } else if name == "F2"@ || name == "VK_F2"@ {
        Some(0x3C)
    } else if name == "F3"@ || name == "VK_F3"@ {
        Some(0x3D)
    } else if name == "F4"@ || name == "VK_F4"@ {
        Some(0x3E)
    } else if name == "F5"@ || name == "VK_F5"@ {
        Some(0x3F)
    } else if name == "F6"@ || name == "VK_F6"@ {
        Some(0x40)
    } else if name == "F7"@ || name == "VK_F7"@ {
        Some(0x41)
    } else if name == "F8"@ || name == "VK_F8"@ {
        Some(0x42)
    } else if name == "F9"@ || name == "VK_F9"@ {
        Some(0x43)
    } else if name == "F10"@ || name == "VK_F10"@ {
        Some(0x44)
    } else if name == "F11"@ || name == "VK_F11"@ {
        Some(0x57)
    } else if name == "F12"@ || name == "VK_F12"@ {
        Some(0x58)
    } else {
        None
    }
}

/// The numeric keypad.
pub open spec fn numpad_code(name: Seq<char>) -> Option<u32> {
    if name == "NumLock"@ || name == "VK_NUMLOCK"@ {
        Some(0x45)
    } else if name == "Numpad0"@ {
        Some(0x52)
    } else if name == "Numpad1"@ {
        Some(0x4F)
    } else if name == "Numpad2"@ {
        Some(0x50)
    } else if name == "Numpad3"@ {
        Some(0x51)
    } else if name == "Numpad4"@ {
        Some(0x4B)
    } else if name == "Numpad5"@ {
        Some(0x4C)
    } else if name == "Numpad6"@ {
        Some(0x4D)
    } else if name == "Numpad7"@ {
        Some(0x47)
    } else if name == "Numpad8"@ {
        Some(0x48)
    } else if name == "Numpad9"@ {
        Some(0x49)
    } else if name == "NumpadMultiply"@ || name == "Multiply"@ {
        Some(0x37)
    } else if name == "NumpadAdd"@ || name == "Add"@ {
        Some(0x4E)
    } else if name == "NumpadSubtract"@ || name == "Subtract"@ {
        Some(0x4A)
    } else if name == "NumpadDecimal"@ || name == "Decimal"@ {
        Some(0x53)
    } else if name == "NumpadDivide"@ || name == "Divide"@ {
        Some(0xE035)
    } else {
        None
    }
}

/// The punctuation keys.
pub open spec fn punctuation_code(name: Seq<char>) -> Option<u32> {
    if name == "-"@ || name == "Minus"@ {
        Some(0x0C)
    } else if name == "="@ || name == "Equal"@ {
        Some(0x0D)
    } else if name == "["@ || name == "BracketLeft"@ {
        Some(0x1A)
    } else if name == "]"@ || name == "BracketRight"@ {
        Some(0x1B)
    } else if name == ";"@ || name == "Semicolon"@ {
        Some(0x27)
    } else if name == "'"@ || name == "Quote"@ {
        Some(0x28)
    } else if name == ","@ || name == "Comma"@ {
        Some(0x33)
    } else if name == "."@ || name == "Period"@ {
        Some(0x34)
    } else if name == "/"@ || name == "Slash"@ {
        Some(0x35)
    } else if name == "\\"@ || name == "Backslash"@ {
        Some(0x2B)
    } else if name == "`"@ || name == "Backtick"@ {
        Some(0x29)
    } else {
        None
    }
}

/// The code of a name that one of the tables holds.
pub open spec fn listed_code(name: Seq<char>) -> Option<u32> {
    if win_code(name) is Some {
        win_code(name)
    } else if right_modifier_code(name) is Some {
        right_modifier_code(name)
    } else if arrow_code(name) is Some {
        arrow_code(name)
    } else if navigation_code(name) is Some {
        navigation_code(name)
    } else if letter_code(name) is Some {
        letter_code(name)
    } else if digit_code(name) is Some {
        digit_code(name)
    } else if modifier_code(name) is Some {
        modifier_code(name)
    } else if editing_code(name) is Some {
        editing_code(name)
    } else if function_code(name) is Some {
        function_code(name)
    } else if numpad_code(name) is Some {
        numpad_code(name)
    } else if punctuation_code(name) is Some {
        punctuation_code(name)
    } else {
        None
    }
}

/// A name of the form `KeyX`, with one character in the place of the `X`.
pub open spec fn is_key_form(name: Seq<char>) -> bool {
    name.len() == 4 && name[0] == 'K' && name[1] == 'e' && name[2] == 'y'
}

/// The scan code that a key name stands for: that of the table that holds it,
/// or, for `KeyX`, that of `X`.
pub open spec fn scancode_of(name: Seq<char>) -> Option<u32> {
    if listed_code(name) is Some {
        listed_code(name)
    } else if is_key_form(name) {
        listed_code(name.subrange(3, 4))
    } else {
        None
    }
}

/// A code of the extended form, `0xE0xx`.
pub open spec fn is_extended(code: u32) -> bool {
    0xE000 <= code <= 0xE0FF
}

fn find_win_code(name: &str) -> (code: Option<u32>)
    ensures
        code == win_code(name@),
{
    if same_text(name, "MetaLeft") || same_text(name, "Meta") {
        Some(0xE05B)
    } else if same_text(name, "MetaRight") || same_text(name, "RWin") {
        Some(0xE05C)
    } else {
        None
    }
}

fn find_right_modifier_code(name: &str) -> (code: Option<u32>)
    ensures
        code == right_modifier_code(name@),
{
    if same_text(name, "ControlRight") {
        Some(0xE01D)
    } else if same_text(name, "AltRight") || same_text(name, "AltGr") {
        Some(0xE038)
    } else {
        None
    }
}

fn find_arrow_code(name: &str) -> (code: Option<u32>)
    ensures
        code == arrow_code(name@),
{
    if same_text(name, "ArrowUp") || same_text(name, "Up") || same_text(name, "VK_UP") {
        Some(0xE048)
    } else if same_text(name, "ArrowDown") || same_text(name, "Down") || same_text(name, "VK_DOWN") {
        Some(0xE050)
    } else if same_text(name, "ArrowLeft") || same_text(name, "Left") || same_text(name, "VK_LEFT") {
        Some(0xE04B)
    } else if same_text(name, "ArrowRight") || same_text(name, "Right") || same_text(name, "VK_RIGHT") {
        Some(0xE04D)
    } else {
        None
    }
}

fn find_navigation_code(name: &str) -> (code: Option<u32>)
    ensures
        code == navigation_code(name@),
{
    if same_text(name, "Delete") || same_text(name, "Del") || same_text(name, "VK_DELETE") {
        Some(0xE053)
    } else if same_text(name, "Insert") || same_text(name, "Ins") || same_text(name, "VK_INSERT") {
        Some(0xE052)
    } else if same_text(name, "Home") || same_text(name, "VK_HOME") {
        Some(0xE047)
    } else if same_text(name, "End") || same_text(name, "VK_END") {
        Some(0xE04F)
    } else if same_text(name, "PageUp") || same_text(name, "VK_PRIOR") {
        Some(0xE049)
    } else if same_text(name, "PageDown") || same_text(name, "VK_NEXT") {
        Some(0xE051)
    } else {
        None
    }
}

fn find_letter_code(name: &str) -> (code: Option<u32>)
    ensures
        code == letter_code(name@),
{
    if same_text(name, "a") || same_text(name, "A") {
        Some(0x1E)
    } else if same_text(name, "b") || same_text(name, "B") {
        Some(0x30)
    } else if same_text(name, "c") || same_text(name, "C") {
        Some(0x2E)
    } else if same_text(name, "d") || same_text(name, "D") {
        Some(0x20)
    } else if same_text(name, "e") || same_text(name, "E") {
        Some(0x12)
    } else if same_text(name, "f") || same_text(name, "F") {
        Some(0x21)
    } else if same_text(name, "g") || same_text(name, "G") {
        Some(0x22)
    } else if same_text(name, "h") || same_text(name, "H") {
        Some(0x23)
    } else if same_text(name, "i") || same_text(name, "I") {
        Some(0x17)
    } else if same_text(name, "j") || same_text(name, "J") {
        Some(0x24)
    } else if same_text(name, "k") || same_text(name, "K") {
        Some(0x25)
    } else if same_text(name, "l") || same_text(name, "L") {
        Some(0x26)
    } else if same_text(name, "m") || same_text(name, "M") {
        Some(0x32)
    } else if same_text(name, "n") || same_text(name, "N") {
        Some(0x31)
    } else if same_text(name, "o") || same_text(name, "O") {
        Some(0x18)
    } else if same_text(name, "p") || same_text(name, "P") {
        Some(0x19)
    } else if same_text(name, "q") || same_text(name, "Q") {
        Some(0x10)
    } else if same_text(name, "r") || same_text(name, "R") {
        Some(0x13)
    } else if same_text(name, "s") || same_text(name, "S") {
        Some(0x1F)
    } else if same_text(name, "t") || same_text(name, "T") {
        Some(0x14)
    } else if same_text(name, "u") || same_text(name, "U") {
        Some(0x16)
    } else if same_text(name, "v") || same_text(name, "V") {
        Some(0x2F)
    } else if same_text(name, "w") || same_text(name, "W") {
        Some(0x11)
    } else if same_text(name, "x") || same_text(name, "X") {
        Some(0x2D)
    } else if same_text(name, "y") || same_text(name, "Y") {
        Some(0x15)
    } else if same_text(name, "z") || same_text(name, "Z") {
        Some(0x2C)
    } else {
        None
    }
}

fn find_digit_code(name: &str) -> (code: Option<u32>)
    ensures
        code == digit_code(name@),
{
    if same_text(name, "0") {
        Some(0x0B)
    } else if same_text(name, "1") {
        Some(0x02)
    } else if same_text(name, "2") {
        Some(0x03)
    } else if same_text(name, "3") {
        Some(0x04)
    } else if same_text(name, "4") {
        Some(0x05)
    } else if same_text(name, "5") {
        Some(0x06)
    } else if same_text(name, "6") {
        Some(0x07)
    } else if same_text(name, "7") {
        Some(0x08)
    } else if same_text(name, "8") {
        Some(0x09)
    } else if same_text(name, "9") {
        Some(0x0A)
    } else {
        None
    }
}

fn find_modifier_code(name: &str) -> (code: Option<u32>)
    ensures
        code == modifier_code(name@),
{
    if same_text(name, "ControlLeft") || same_text(name, "Control") || same_text(name, "VK_CONTROL") {
        Some(0x1D)
    } else if same_text(name, "ShiftLeft") || same_text(name, "Shift") || same_text(name, "VK_SHIFT") {
        Some(0x2A)
    } else if same_text(name, "ShiftRight") {
        Some(0x36)
    } else if same_text(name, "AltLeft") || same_text(name, "Alt") || same_text(name, "VK_MENU") {
        Some(0x38)
    } else {
        None
    }
}

fn find_editing_code(name: &str) -> (code: Option<u32>)
    ensures
        code == editing_code(name@),
{
    if same_text(name, "Enter") || same_text(name, "Return") || same_text(name, "VK_RETURN") {
        Some(0x1C)
    } else if same_text(name, "Space") || same_text(name, "VK_SPACE") {
        Some(0x39)
    } else if same_text(name, "Tab") || same_text(name, "VK_TAB") {
        Some(0x0F)
    } else if same_text(name, "Escape") || same_text(name, "Esc") || same_text(name, "VK_ESCAPE") {
        Some(0x01)
    } else if same_text(name, "Backspace") || same_text(name, "VK_BACK") {
        Some(0x0E)
    } else if same_text(name, "PrintScreen") || same_text(name, "VK_SNAPSHOT") {
        Some(0xE037)
    } else if same_text(name, "CapsLock") || same_text(name, "VK_CAPITAL") {
        Some(0x3A)
    } else if same_text(name, "ScrollLock") || same_text(name, "VK_SCROLL") {
        Some(0x46)
    } else if same_text(name, "Pause") || same_text(name, "VK_PAUSE") {
        Some(0xE045)
    } else if same_text(name, "Apps") || same_text(name, "Menu") {
        Some(0xE05D)
    } else {
        None
    }
}

fn find_function_code(name: &str) -> (code: Option<u32>)
    ensures
        code == function_code(name@),
{
    if same_text(name, "F1") || same_text(name, "VK_F1") {
        Some(0x3B)
    } else if same_text(name, "F2") || same_text(name, "VK_F2") {
        Some(0x3C)
    } else if same_text(name, "F3") || same_text(name, "VK_F3") {
        Some(0x3D)
    } else if same_text(name, "F4") || same_text(name, "VK_F4") {
        Some(0x3E)
    } else if same_text(name, "F5") || same_text(name, "VK_F5") {
        Some(0x3F)
    } else if same_text(name, "F6") || same_text(name, "VK_F6") {
        Some(0x40)
    } else if same_text(name, "F7") || same_text(name, "VK_F7") {
        Some(0x41)
    } else if same_text(name, "F8") || same_text(name, "VK_F8") {
        Some(0x42)
    } else if same_text(name, "F9") || same_text(name, "VK_F9") {
        Some(0x43)
    } else if same_text(name, "F10") || same_text(name, "VK_F10") {
        Some(0x44)
    } else if same_text(name, "F11") || same_text(name, "VK_F11") {
        Some(0x57)
    } else if same_text(name, "F12") || same_text(name, "VK_F12") {
        Some(0x58)
    } else {
        None
    }
}

fn find_numpad_code(name: &str) -> (code: Option<u32>)
    ensures
        code == numpad_code(name@),
{
    if same_text(name, "NumLock") || same_text(name, "VK_NUMLOCK") {
        Some(0x45)
    } else if same_text(name, "Numpad0") {
        Some(0x52)
    } else if same_text(name, "Numpad1") {
        Some(0x4F)
    } else if same_text(name, "Numpad2") {
        Some(0x50)
    } else if same_text(name, "Numpad3") {
        Some(0x51)
    } else if same_text(name, "Numpad4") {
        Some(0x4B)
    } else if same_text(name, "Numpad5") {
        Some(0x4C)
    } else if same_text(name, "Numpad6") {
        Some(0x4D)
    } else if same_text(name, "Numpad7") {
        Some(0x47)
    } else if same_text(name, "Numpad8") {
        Some(0x48)
    } else if same_text(name, "Numpad9") {
        Some(0x49)
    } else if same_text(name, "NumpadMultiply") || same_text(name, "Multiply") {
        Some(0x37)
    } else if same_text(name, "NumpadAdd") || same_text(name, "Add") {
        Some(0x4E)
    } else if same_text(name, "NumpadSubtract") || same_text(name, "Subtract") {
        Some(0x4A)
    } else if same_text(name, "NumpadDecimal") || same_text(name, "Decimal") {
        Some(0x53)
    } else if same_text(name, "NumpadDivide") || same_text(name, "Divide") {
        Some(0xE035)
    } else {
        None
    }
}

fn find_punctuation_code(name: &str) -> (code: Option<u32>)
    ensures
        code == punctuation_code(name@),
{
    if same_text(name, "-") || same_text(name, "Minus") {
        Some(0x0C)
    } else if same_text(name, "=") || same_text(name, "Equal") {
        Some(0x0D)
    } else if same_text(name, "[") || same_text(name, "BracketLeft") {
        Some(0x1A)
    } else if same_text(name, "]") || same_text(name, "BracketRight") {
        Some(0x1B)
    } else if same_text(name, ";") || same_text(name, "Semicolon") {
        Some(0x27)
    } else if same_text(name, "'") || same_text(name, "Quote") {
        Some(0x28)
    } else if same_text(name, ",") || same_text(name, "Comma") {
        Some(0x33)
    } else if same_text(name, ".") || same_text(name, "Period") {
        Some(0x34)
    } else if same_text(name, "/") || same_text(name, "Slash") {
        Some(0x35)
    } else if same_text(name, "\\") || same_text(name, "Backslash") {
        Some(0x2B)
    } else if same_text(name, "`") || same_text(name, "Backtick") {
        Some(0x29)
    } else {
        None
    }
}

fn find_listed_code(name: &str) -> (code: Option<u32>)
    ensures
        code == listed_code(name@),
{
    let code: Option<u32> = find_win_code(name);
    if code.is_some() {
        return code;
    }
    let code: Option<u32> = find_right_modifier_code(name);
    if code.is_some() {
        return code;
    }
    let code: Option<u32> = find_arrow_code(name);
    if code.is_some() {
        return code;
    }
    let code: Option<u32> = find_navigation_code(name);
    if code.is_some() {
        return code;
    }
    let code: Option<u32> = find_letter_code(name);
    if code.is_some() {
        return code;
    }
    let code: Option<u32> = find_digit_code(name);
    if code.is_some() {
        return code;
    }
    let code: Option<u32> = find_modifier_code(name);
    if code.is_some() {
        return code;
    }
    let code: Option<u32> = find_editing_code(name);
    if code.is_some() {
        return code;
    }
    let code: Option<u32> = find_function_code(name);
    if code.is_some() {
        return code;
    }
    let code: Option<u32> = find_numpad_code(name);
    if code.is_some() {
        return code;
    }
    let code: Option<u32> = find_punctuation_code(name);
    if code.is_some() {
        return code;
    }
    None
}

/// Maps a key name to its scan code: the names in the tables, and `KeyX` as
/// another way to write `X`. Any other name has none.
pub fn name_to_scancode(name: &str) -> (code: Option<u32>)
    ensures
        code == scancode_of(name@),
{
    let code: Option<u32> = find_listed_code(name);
    if code.is_some() {
        return code;
    }
    if name.unicode_len() == 4 && name.get_char(0) == 'K' && name.get_char(1) == 'e'
        && name.get_char(2) == 'y' {
        find_listed_code(name.substring_char(3, 4))
    } else {
        None
    }
}

/// Every scan code is one byte below `0x80`, or that byte behind `0xE0`.
pub proof fn scancodes_are_set_one(name: Seq<char>)
    ensures
        scancode_of(name) matches Some(code) ==> code < 0x80 || 0xE000 <= code < 0xE080,
{
}

/// The Windows keys, the right-hand Control and Alt, the arrows and the block
/// above them have extended codes.
pub proof fn extended_keys_have_extended_codes(name: Seq<char>)
    requires
        win_code(name) is Some || right_modifier_code(name) is Some || arrow_code(name) is Some
            || navigation_code(name) is Some,
    ensures
        scancode_of(name) matches Some(code) && is_extended(code),
{
}

proof fn lemma_key_form_not_in_win_code(name: Seq<char>)
    requires
        is_key_form(name),
    ensures
        win_code(name) is None,
{
    reveal_strlit("MetaLeft");
    reveal_strlit("Meta");
    reveal_strlit("MetaRight");
    reveal_strlit("RWin");
}

proof fn lemma_key_form_not_in_right_modifier_code(name: Seq<char>)
    requires
        is_key_form(name),
    ensures
        right_modifier_code(name) is None,
{
    reveal_strlit("ControlRight");
    reveal_strlit("AltRight");
    reveal_strlit("AltGr");
}

proof fn lemma_key_form_not_in_arrow_code(name: Seq<char>)
    requires
        is_key_form(name),
    ensures
        arrow_code(name) is None,
{
    reveal_strlit("ArrowUp");
    reveal_strlit("Up");
    reveal_strlit("VK_UP");
    reveal_strlit("ArrowDown");
    reveal_strlit("Down");
    reveal_strlit("VK_DOWN");
    reveal_strlit("ArrowLeft");
    reveal_strlit("Left");
    reveal_strlit("VK_LEFT");
    reveal_strlit("ArrowRight");
    reveal_strlit("Right");
    reveal_strlit("VK_RIGHT");
}

proof fn lemma_key_form_not_in_navigation_code(name: Seq<char>)
    requires
        is_key_form(name),
    ensures
        navigation_code(name) is None,
{
    reveal_strlit("Delete");
    reveal_strlit("Del");
    reveal_strlit("VK_DELETE");
    reveal_strlit("Insert");
    reveal_strlit("Ins");
    reveal_strlit("VK_INSERT");
    reveal_strlit("Home");
    reveal_strlit("VK_HOME");
    reveal_strlit("End");
    reveal_strlit("VK_END");
    reveal_strlit("PageUp");
    reveal_strlit("VK_PRIOR");
    reveal_strlit("PageDown");
    reveal_strlit("VK_NEXT");
}

proof fn lemma_key_form_not_in_letter_code(name: Seq<char>)
    requires
        is_key_form(name),
    ensures
        letter_code(name) is None,
{
    reveal_strlit("a");
    reveal_strlit("A");
    reveal_strlit("b");
    reveal_strlit("B");
    reveal_strlit("c");
    reveal_strlit("C");
    reveal_strlit("d");
    reveal_strlit("D");
    reveal_strlit("e");
    reveal_strlit("E");
    reveal_strlit("f");
    reveal_strlit("F");
    reveal_strlit("g");
    reveal_strlit("G");
    reveal_strlit("h");
    reveal_strlit("H");
    reveal_strlit("i");
    reveal_strlit("I");
    reveal_strlit("j");
    reveal_strlit("J");
    reveal_strlit("k");
    reveal_strlit("K");
    reveal_strlit("l");
    reveal_strlit("L");
    reveal_strlit("m");
    reveal_strlit("M");
    reveal_strlit("n");
    reveal_strlit("N");
    reveal_strlit("o");
    reveal_strlit("O");
    reveal_strlit("p");
    reveal_strlit("P");
    reveal_strlit("q");
    reveal_strlit("Q");
    reveal_strlit("r");
    reveal_strlit("R");
    reveal_strlit("s");
    reveal_strlit("S");
    reveal_strlit("t");
    reveal_strlit("T");
    reveal_strlit("u");
    reveal_strlit("U");
    reveal_strlit("v");
    reveal_strlit("V");
    reveal_strlit("w");
    reveal_strlit("W");
    reveal_strlit("x");
    reveal_strlit("X");
    reveal_strlit("y");
    reveal_strlit("Y");
    reveal_strlit("z");
    reveal_strlit("Z");
}

proof fn lemma_key_form_not_in_digit_code(name: Seq<char>)
    requires
        is_key_form(name),
    ensures
        digit_code(name) is None,
{
    reveal_strlit("0");
    reveal_strlit("1");
    reveal_strlit("2");
    reveal_strlit("3");
    reveal_strlit("4");
    reveal_strlit("5");
    reveal_strlit("6");
    reveal_strlit("7");
    reveal_strlit("8");
    reveal_strlit("9");
}

proof fn lemma_key_form_not_in_modifier_code(name: Seq<char>)
    requires
        is_key_form(name),
    ensures
        modifier_code(name) is None,
{
    reveal_strlit("ControlLeft");
    reveal_strlit("Control");
    reveal_strlit("VK_CONTROL");
    reveal_strlit("ShiftLeft");
    reveal_strlit("Shift");
    reveal_strlit("VK_SHIFT");
    reveal_strlit("ShiftRight");
    reveal_strlit("AltLeft");
    reveal_strlit("Alt");
    reveal_strlit("VK_MENU");
}

proof fn lemma_key_form_not_in_editing_code(name: Seq<char>)
    requires
        is_key_form(name),
    ensures
        editing_code(name) is None,
{
    reveal_strlit("Enter");
    reveal_strlit("Return");
    reveal_strlit("VK_RETURN");
    reveal_strlit("Space");
    reveal_strlit("VK_SPACE");
    reveal_strlit("Tab");
    reveal_strlit("VK_TAB");
    reveal_strlit("Escape");
    reveal_strlit("Esc");
    reveal_strlit("VK_ESCAPE");
    reveal_strlit("Backspace");
    reveal_strlit("VK_BACK");
    reveal_strlit("PrintScreen");
    reveal_strlit("VK_SNAPSHOT");
    reveal_strlit("CapsLock");
    reveal_strlit("VK_CAPITAL");
    reveal_strlit("ScrollLock");
    reveal_strlit("VK_SCROLL");
    reveal_strlit("Pause");
    reveal_strlit("VK_PAUSE");
    reveal_strlit("Apps");
    reveal_strlit("Menu");
}

proof fn lemma_key_form_not_in_function_code(name: Seq<char>)
    requires
        is_key_form(name),
    ensures
        function_code(name) is None,
{
    reveal_strlit("F1");
    reveal_strlit("VK_F1");
    reveal_strlit("F2");
    reveal_strlit("VK_F2");
    reveal_strlit("F3");
    reveal_strlit("VK_F3");
    reveal_strlit("F4");
    reveal_strlit("VK_F4");
    reveal_strlit("F5");
    reveal_strlit("VK_F5");
    reveal_strlit("F6");
    reveal_strlit("VK_F6");
    reveal_strlit("F7");
    reveal_strlit("VK_F7");
    reveal_strlit("F8");
    reveal_strlit("VK_F8");
    reveal_strlit("F9");
    reveal_strlit("VK_F9");
    reveal_strlit("F10");
    reveal_strlit("VK_F10");
    reveal_strlit("F11");
    reveal_strlit("VK_F11");
    reveal_strlit("F12");
    reveal_strlit("VK_F12");
}

proof fn lemma_key_form_not_in_numpad_code(name: Seq<char>)
    requires
        is_key_form(name),
    ensures
        numpad_code(name) is None,
{
    reveal_strlit("NumLock");
    reveal_strlit("VK_NUMLOCK");
    reveal_strlit("Numpad0");
    reveal_strlit("Numpad1");
    reveal_strlit("Numpad2");
    reveal_strlit("Numpad3");
    reveal_strlit("Numpad4");
    reveal_strlit("Numpad5");
    reveal_strlit("Numpad6");
    reveal_strlit("Numpad7");
    reveal_strlit("Numpad8");
    reveal_strlit("Numpad9");
    reveal_strlit("NumpadMultiply");
    reveal_strlit("Multiply");
    reveal_strlit("NumpadAdd");
    reveal_strlit("Add");
    reveal_strlit("NumpadSubtract");
    reveal_strlit("Subtract");
    reveal_strlit("NumpadDecimal");
    reveal_strlit("Decimal");
    reveal_strlit("NumpadDivide");
    reveal_strlit("Divide");
}

proof fn lemma_key_form_not_in_punctuation_code(name: Seq<char>)
    requires
        is_key_form(name),
    ensures
        punctuation_code(name) is None,
{
    reveal_strlit("-");
    reveal_strlit("Minus");
    reveal_strlit("=");
    reveal_strlit("Equal");
    reveal_strlit("[");
    reveal_strlit("BracketLeft");
    reveal_strlit("]");
    reveal_strlit("BracketRight");
    reveal_strlit(";");
    reveal_strlit("Semicolon");
    reveal_strlit("'");
    reveal_strlit("Quote");
    reveal_strlit(",");
    reveal_strlit("Comma");
    reveal_strlit(".");
    reveal_strlit("Period");
    reveal_strlit("/");
    reveal_strlit("Slash");
    reveal_strlit("\\");
    reveal_strlit("Backslash");
    reveal_strlit("`");
    reveal_strlit("Backtick");
}

/// `KeyX` and `X` are the same key, whatever character stands for the `X`.
pub proof fn key_form_names_the_same_key(last: char)
    ensures
        scancode_of(seq!['K', 'e', 'y', last]) == scancode_of(seq![last]),
{
    let name = seq!['K', 'e', 'y', last];
    lemma_key_form_not_in_win_code(name);
    lemma_key_form_not_in_right_modifier_code(name);
    lemma_key_form_not_in_arrow_code(name);
    lemma_key_form_not_in_navigation_code(name);
    lemma_key_form_not_in_letter_code(name);
    lemma_key_form_not_in_digit_code(name);
    lemma_key_form_not_in_modifier_code(name);
    lemma_key_form_not_in_editing_code(name);
    lemma_key_form_not_in_function_code(name);
    lemma_key_form_not_in_numpad_code(name);
    lemma_key_form_not_in_punctuation_code(name);
    assert(name.subrange(3, 4) =~= seq![last]);
}

proof fn lemma_one_character_is_no_extended_key(character: char)
    ensures
        win_code(seq![character]) is None,
        right_modifier_code(seq![character]) is None,
        arrow_code(seq![character]) is None,
        navigation_code(seq![character]) is None,
{
    assert(seq![character].len() == 1);
    reveal_strlit("MetaLeft");
    reveal_strlit("Meta");
    reveal_strlit("MetaRight");
    reveal_strlit("RWin");
    reveal_strlit("ControlRight");
    reveal_strlit("AltRight");
    reveal_strlit("AltGr");
    reveal_strlit("ArrowUp");
    reveal_strlit("Up");
    reveal_strlit("VK_UP");
    reveal_strlit("ArrowDown");
    reveal_strlit("Down");
    reveal_strlit("VK_DOWN");
    reveal_strlit("ArrowLeft");
    reveal_strlit("Left");
    reveal_strlit("VK_LEFT");
    reveal_strlit("ArrowRight");
    reveal_strlit("Right");
    reveal_strlit("VK_RIGHT");
    reveal_strlit("Delete");
    reveal_strlit("Del");
    reveal_strlit("VK_DELETE");
    reveal_strlit("Insert");
    reveal_strlit("Ins");
    reveal_strlit("VK_INSERT");
    reveal_strlit("Home");
    reveal_strlit("VK_HOME");
    reveal_strlit("End");
    reveal_strlit("VK_END");
    reveal_strlit("PageUp");
    reveal_strlit("VK_PRIOR");
    reveal_strlit("PageDown");
    reveal_strlit("VK_NEXT");
}

/// The character in upper case, of a lower-case letter from `a` to `z`.
pub open spec fn upper(letter: char) -> char {
    ((letter as u32) - 32) as char
}

/// A letter is the same key in either case, and it is one of the keys.
pub proof fn letters_are_one_key_in_either_case(letter: char)
    requires
        'a' <= letter <= 'z',
    ensures
        scancode_of(seq![letter]) is Some,
        scancode_of(seq![letter]) == scancode_of(seq![upper(letter)]),
{
    lemma_one_character_is_no_extended_key(letter);
    lemma_one_character_is_no_extended_key(upper(letter));
    reveal_strlit("a");
    assert("a"@[0] == 'a');
    reveal_strlit("A");
    assert("A"@[0] == 'A');
    reveal_strlit("b");
    assert("b"@[0] == 'b');
    reveal_strlit("B");
    assert("B"@[0] == 'B');
    reveal_strlit("c");
    assert("c"@[0] == 'c');
    reveal_strlit("C");
    assert("C"@[0] == 'C');
    reveal_strlit("d");
    assert("d"@[0] == 'd');
    reveal_strlit("D");
    assert("D"@[0] == 'D');
    reveal_strlit("e");
    assert("e"@[0] == 'e');
    reveal_strlit("E");
    assert("E"@[0] == 'E');
    reveal_strlit("f");
    assert("f"@[0] == 'f');
    reveal_strlit("F");
    assert("F"@[0] == 'F');
    reveal_strlit("g");
    assert("g"@[0] == 'g');
    reveal_strlit("G");
    assert("G"@[0] == 'G');
    reveal_strlit("h");
    assert("h"@[0] == 'h');
    reveal_strlit("H");
    assert("H"@[0] == 'H');
    reveal_strlit("i");
    assert("i"@[0] == 'i');
    reveal_strlit("I");
    assert("I"@[0] == 'I');
    reveal_strlit("j");
    assert("j"@[0] == 'j');
    reveal_strlit("J");
    assert("J"@[0] == 'J');
    reveal_strlit("k");
    assert("k"@[0] == 'k');
    reveal_strlit("K");
    assert("K"@[0] == 'K');
    reveal_strlit("l");
    assert("l"@[0] == 'l');
    reveal_strlit("L");
    assert("L"@[0] == 'L');
    reveal_strlit("m");
    assert("m"@[0] == 'm');
    reveal_strlit("M");
    assert("M"@[0] == 'M');
    reveal_strlit("n");
    assert("n"@[0] == 'n');
    reveal_strlit("N");
    assert("N"@[0] == 'N');
    reveal_strlit("o");
    assert("o"@[0] == 'o');
    reveal_strlit("O");
    assert("O"@[0] == 'O');
    reveal_strlit("p");
    assert("p"@[0] == 'p');
    reveal_strlit("P");
    assert("P"@[0] == 'P');
    reveal_strlit("q");
    assert("q"@[0] == 'q');
    reveal_strlit("Q");
    assert("Q"@[0] == 'Q');
    reveal_strlit("r");
    assert("r"@[0] == 'r');
    reveal_strlit("R");
    assert("R"@[0] == 'R');
    reveal_strlit("s");
    assert("s"@[0] == 's');
    reveal_strlit("S");
    assert("S"@[0] == 'S');
    reveal_strlit("t");
    assert("t"@[0] == 't');
    reveal_strlit("T");
    assert("T"@[0] == 'T');
    reveal_strlit("u");
    assert("u"@[0] == 'u');
    reveal_strlit("U");
    assert("U"@[0] == 'U');
    reveal_strlit("v");
    assert("v"@[0] == 'v');
    reveal_strlit("V");
    assert("V"@[0] == 'V');
    reveal_strlit("w");
    assert("w"@[0] == 'w');
    reveal_strlit("W");
    assert("W"@[0] == 'W');
    reveal_strlit("x");
    assert("x"@[0] == 'x');
    reveal_strlit("X");
    assert("X"@[0] == 'X');
    reveal_strlit("y");
    assert("y"@[0] == 'y');
    reveal_strlit("Y");
    assert("Y"@[0] == 'Y');
    reveal_strlit("z");
    assert("z"@[0] == 'z');
    reveal_strlit("Z");
    assert("Z"@[0] == 'Z');
    if letter == 'a' {
        assert(seq![letter] =~= "a"@);
        assert(seq![upper(letter)] =~= "A"@);
    } else if letter == 'b' {
        assert(seq![letter] =~= "b"@);
        assert(seq![upper(letter)] =~= "B"@);
    } else if letter == 'c' {
        assert(seq![letter] =~= "c"@);
        assert(seq![upper(letter)] =~= "C"@);
    } else if letter == 'd' {
        assert(seq![letter] =~= "d"@);
        assert(seq![upper(letter)] =~= "D"@);
    } else if letter == 'e' {
        assert(seq![letter] =~= "e"@);
        assert(seq![upper(letter)] =~= "E"@);
    } else if letter == 'f' {
        assert(seq![letter] =~= "f"@);
        assert(seq![upper(letter)] =~= "F"@);
    } else if letter == 'g' {
        assert(seq![letter] =~= "g"@);
        assert(seq![upper(letter)] =~= "G"@);
    } else if letter == 'h' {
        assert(seq![letter] =~= "h"@);
        assert(seq![upper(letter)] =~= "H"@);
    } else if letter == 'i' {
        assert(seq![letter] =~= "i"@);
        assert(seq![upper(letter)] =~= "I"@);
    } else if letter == 'j' {
        assert(seq![letter] =~= "j"@);
        assert(seq![upper(letter)] =~= "J"@);
    } else if letter == 'k' {
        assert(seq![letter] =~= "k"@);
        assert(seq![upper(letter)] =~= "K"@);
    } else if letter == 'l' {
        assert(seq![letter] =~= "l"@);
        assert(seq![upper(letter)] =~= "L"@);
    } else if letter == 'm' {
        assert(seq![letter] =~= "m"@);
        assert(seq![upper(letter)] =~= "M"@);
    } else if letter == 'n' {
        assert(seq![letter] =~= "n"@);
        assert(seq![upper(letter)] =~= "N"@);
    } else if letter == 'o' {
        assert(seq![letter] =~= "o"@);
        assert(seq![upper(letter)] =~= "O"@);
    } else if letter == 'p' {
        assert(seq![letter] =~= "p"@);
        assert(seq![upper(letter)] =~= "P"@);
    } else if letter == 'q' {
        assert(seq![letter] =~= "q"@);
        assert(seq![upper(letter)] =~= "Q"@);
    } else if letter == 'r' {
        assert(seq![letter] =~= "r"@);
        assert(seq![upper(letter)] =~= "R"@);
    } else if letter == 's' {
        assert(seq![letter] =~= "s"@);
        assert(seq![upper(letter)] =~= "S"@);
    } else if letter == 't' {
        assert(seq![letter] =~= "t"@);
        assert(seq![upper(letter)] =~= "T"@);
    } else if letter == 'u' {
        assert(seq![letter] =~= "u"@);
        assert(seq![upper(letter)] =~= "U"@);
    } else if letter == 'v' {
        assert(seq![letter] =~= "v"@);
        assert(seq![upper(letter)] =~= "V"@);
    } else if letter == 'w' {
        assert(seq![letter] =~= "w"@);
        assert(seq![upper(letter)] =~= "W"@);
    } else if letter == 'x' {
        assert(seq![letter] =~= "x"@);
        assert(seq![upper(letter)] =~= "X"@);
    } else if letter == 'y' {
        assert(seq![letter] =~= "y"@);
        assert(seq![upper(letter)] =~= "Y"@);
    } else if letter == 'z' {
        assert(seq![letter] =~= "z"@);
        assert(seq![upper(letter)] =~= "Z"@);
    }
}

} // verus!
