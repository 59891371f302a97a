//! Which names the keys have, and how their codes hang together.

use vstd::prelude::*;

use crate::scancode::name_to_scancode;
use crate::scancode::{arrow_code, digit_code, editing_code, function_code, letter_code};
use crate::scancode::{listed_code, modifier_code, navigation_code, numpad_code};
use crate::scancode::{punctuation_code, right_modifier_code, win_code};

verus! {

/// The names of the Windows keys.
pub open spec fn is_win_name(name: Seq<char>) -> bool {
    ||| name == "MetaLeft"@
    ||| name == "Meta"@
    ||| name == "MetaRight"@
    ||| name == "RWin"@
}

/// The names of the right-hand Control and Alt keys.
pub open spec fn is_right_modifier_name(name: Seq<char>) -> bool {
    ||| name == "ControlRight"@
    ||| name == "AltRight"@
    ||| name == "AltGr"@
}

/// The names of the arrow keys.
pub open spec fn is_arrow_name(name: Seq<char>) -> bool {
    ||| name == "ArrowUp"@
    ||| name == "Up"@
    ||| name == "VK_UP"@
    ||| name == "ArrowDown"@
    ||| name == "Down"@
    ||| name == "VK_DOWN"@
    ||| name == "ArrowLeft"@
    ||| name == "Left"@
    ||| name == "VK_LEFT"@
    ||| name == "ArrowRight"@
    ||| name == "Right"@
    ||| name == "VK_RIGHT"@
}

/// The names of the keys of the block above the arrows.
pub open spec fn is_navigation_name(name: Seq<char>) -> bool {
    ||| name == "Delete"@
    ||| name == "Del"@
    ||| name == "VK_DELETE"@
    ||| name == "Insert"@
    ||| name == "Ins"@
    ||| name == "VK_INSERT"@
    ||| name == "Home"@
    ||| name == "VK_HOME"@
    ||| name == "End"@
    ||| name == "VK_END"@
    ||| name == "PageUp"@
    ||| name == "VK_PRIOR"@
    ||| name == "PageDown"@
    ||| name == "VK_NEXT"@
}

/// The names of the letters of a US keyboard, in either case.
pub open spec fn is_letter_name(name: Seq<char>) -> bool {
    ||| name == "a"@
    ||| name == "A"@
    ||| name == "b"@
    ||| name == "B"@
    ||| name == "c"@
    ||| name == "C"@
    ||| name == "d"@
    ||| name == "D"@
    ||| name == "e"@
    ||| name == "E"@
    ||| name == "f"@
    ||| name == "F"@
    ||| name == "g"@
    ||| name == "G"@
    ||| name == "h"@
    ||| name == "H"@
    ||| name == "i"@
    ||| name == "I"@
    ||| name == "j"@
    ||| name == "J"@
    ||| name == "k"@
    ||| name == "K"@
    ||| name == "l"@
    ||| name == "L"@
    ||| name == "m"@
    ||| name == "M"@
    ||| name == "n"@
    ||| name == "N"@
    ||| name == "o"@
    ||| name == "O"@
    ||| name == "p"@
    ||| name == "P"@
    ||| name == "q"@
    ||| name == "Q"@
    ||| name == "r"@
    ||| name == "R"@
    ||| name == "s"@
    ||| name == "S"@
    ||| name == "t"@
    ||| name == "T"@
    ||| name == "u"@
    ||| name == "U"@
    ||| name == "v"@
    ||| name == "V"@
    ||| name == "w"@
    ||| name == "W"@
    ||| name == "x"@
    ||| name == "X"@
    ||| name == "y"@
    ||| name == "Y"@
    ||| name == "z"@
    ||| name == "Z"@
}

/// The names of the digits of the main block.
pub open spec fn is_digit_name(name: Seq<char>) -> bool {
    ||| name == "0"@
    ||| name == "1"@
    ||| name == "2"@
    ||| name == "3"@
    ||| name == "4"@
    ||| name == "5"@
    ||| name == "6"@
    ||| name == "7"@
    ||| name == "8"@
    ||| name == "9"@
}

/// The names of the other modifiers.
pub open spec fn is_modifier_name(name: Seq<char>) -> bool {
    ||| name == "ControlLeft"@
    ||| name == "Control"@
    ||| name == "VK_CONTROL"@
    ||| name == "ShiftLeft"@
    ||| name == "Shift"@
    ||| name == "VK_SHIFT"@
    ||| name == "ShiftRight"@
    ||| name == "AltLeft"@
    ||| name == "Alt"@
    ||| name == "VK_MENU"@
}

/// The names of the editing keys and the locks.
pub open spec fn is_editing_name(name: Seq<char>) -> bool {
    ||| name == "Enter"@
    ||| name == "Return"@
    ||| name == "VK_RETURN"@
    ||| name == "Space"@
    ||| name == "VK_SPACE"@
    ||| name == "Tab"@
    ||| name == "VK_TAB"@
    ||| name == "Escape"@
    ||| name == "Esc"@
    ||| name == "VK_ESCAPE"@
    ||| name == "Backspace"@
    ||| name == "VK_BACK"@
    ||| name == "PrintScreen"@
    ||| name == "VK_SNAPSHOT"@
    ||| name == "CapsLock"@
    ||| name == "VK_CAPITAL"@
    ||| name == "ScrollLock"@
    ||| name == "VK_SCROLL"@
    ||| name == "Pause"@
    ||| name == "VK_PAUSE"@
    ||| name == "Apps"@
    ||| name == "Menu"@
}

/// The names of the function keys.
pub open spec fn is_function_name(name: Seq<char>) -> bool {
    ||| name == "F1"@
    ||| name == "VK_F1"@
    ||| name == "F2"@
    ||| name == "VK_F2"@
    ||| name == "F3"@
    ||| name == "VK_F3"@
    ||| name == "F4"@
    ||| name == "VK_F4"@
    ||| name == "F5"@
    ||| name == "VK_F5"@
    ||| name == "F6"@
    ||| name == "VK_F6"@
    ||| name == "F7"@
    ||| name == "VK_F7"@
    ||| name == "F8"@
    ||| name == "VK_F8"@
    ||| name == "F9"@
    ||| name == "VK_F9"@
    ||| name == "F10"@
    ||| name == "VK_F10"@
    ||| name == "F11"@
    ||| name == "VK_F11"@
    ||| name == "F12"@
    ||| name == "VK_F12"@
}

/// The names of the numeric keypad.
pub open spec fn is_numpad_name(name: Seq<char>) -> bool {
    ||| name == "NumLock"@
    ||| name == "VK_NUMLOCK"@
    ||| name == "Numpad0"@
    ||| name == "Numpad1"@
    ||| name == "Numpad2"@
    ||| name == "Numpad3"@
    ||| name == "Numpad4"@
    ||| name == "Numpad5"@
    ||| name == "Numpad6"@
    ||| name == "Numpad7"@
    ||| name == "Numpad8"@
    ||| name == "Numpad9"@
    ||| name == "NumpadMultiply"@
    ||| name == "Multiply"@
    ||| name == "NumpadAdd"@
    ||| name == "Add"@
    ||| name == "NumpadSubtract"@
    ||| name == "Subtract"@
    ||| name == "NumpadDecimal"@
    ||| name == "Decimal"@
    ||| name == "NumpadDivide"@
    ||| name == "Divide"@
}

/// The names of the punctuation keys.
pub open spec fn is_punctuation_name(name: Seq<char>) -> bool {
    ||| name == "-"@
    ||| name == "Minus"@
    ||| name == "="@
    ||| name == "Equal"@
    ||| name == "["@
    ||| name == "BracketLeft"@
    ||| name == "]"@
    ||| name == "BracketRight"@
    ||| name == ";"@
    ||| name == "Semicolon"@
    ||| name == "'"@
    ||| name == "Quote"@
    ||| name == ","@
    ||| name == "Comma"@
    ||| name == "."@
    ||| name == "Period"@
    ||| name == "/"@
    ||| name == "Slash"@
    ||| name == "\\"@
    ||| name == "Backslash"@
    ||| name == "`"@
    ||| name == "Backtick"@
}

/// The names of the keys.
pub open spec fn is_key_name(name: Seq<char>) -> bool {
    ||| is_win_name(name)
    ||| is_right_modifier_name(name)
    ||| is_arrow_name(name)
    ||| is_navigation_name(name)
    ||| is_letter_name(name)
    ||| is_digit_name(name)
    ||| is_modifier_name(name)
    ||| is_editing_name(name)
    ||| is_function_name(name)
    ||| is_numpad_name(name)
    ||| is_punctuation_name(name)
}

/// A name of four characters that opens with `Key`.
pub open spec fn is_key_and_character(name: Seq<char>) -> bool {
    name.len() == 4 && name[0] == 'K' && name[1] == 'e' && name[2] == 'y'
}

proof fn lemma_listed(name: Seq<char>)
    ensures
        listed_code(name) is Some <==> is_key_name(name),
{
    assert(win_code(name) is Some <==> is_win_name(name));
    assert(right_modifier_code(name) is Some <==> is_right_modifier_name(name));
    assert(arrow_code(name) is Some <==> is_arrow_name(name));
    assert(navigation_code(name) is Some <==> is_navigation_name(name));
    assert(letter_code(name) is Some <==> is_letter_name(name));
    assert(digit_code(name) is Some <==> is_digit_name(name));
    assert(modifier_code(name) is Some <==> is_modifier_name(name));
    assert(editing_code(name) is Some <==> is_editing_name(name));
    assert(function_code(name) is Some <==> is_function_name(name));
    assert(numpad_code(name) is Some <==> is_numpad_name(name));
    assert(punctuation_code(name) is Some <==> is_punctuation_name(name));
}

/// A name has a code if and only if it is one of the names of the keys, or
/// `Key` and a character that is one.
pub proof fn only_keys_have_codes(name: &str, code: Option<u32>)
    requires
        call_ensures(name_to_scancode, (name,), code),
    ensures
        code is Some <==> is_key_name(name@) || (is_key_and_character(name@) && is_key_name(
            seq![name@[3]],
        )),
{
    lemma_listed(name@);
    if is_key_and_character(name@) {
        assert(name@.subrange(3, 4) =~= seq![name@[3]]);
        lemma_listed(seq![name@[3]]);
    }
}

/// `Key` and a character is the same key as the character, whichever it is.
pub proof fn key_and_character_is_the_character(
    name: &str,
    code: Option<u32>,
    character: &str,
    same: Option<u32>,
)
    requires
        call_ensures(name_to_scancode, (name,), code),
        call_ensures(name_to_scancode, (character,), same),
        character@.len() == 1,
        name@ == seq!['K', 'e', 'y'] + character@,
    ensures
        code == same,
{
    crate::scancode::key_form_names_the_same_key(character@[0]);
    assert(name@ =~= seq!['K', 'e', 'y', character@[0]]);
    assert(character@ =~= seq![character@[0]]);
}

/// A letter is the same key in either case.
pub proof fn letters_are_the_same_key_in_either_case(
    small: &str,
    of_small: Option<u32>,
    capital: &str,
    of_capital: Option<u32>,
    letter: char,
)
    requires
        call_ensures(name_to_scancode, (small,), of_small),
        call_ensures(name_to_scancode, (capital,), of_capital),
        'a' <= letter <= 'z',
        small@ == seq![letter],
        capital@ == seq![((letter as u32) - 32) as char],
    ensures
        of_small is Some,
        of_small == of_capital,
{
    crate::scancode::letters_are_one_key_in_either_case(letter);
}

} // verus!
