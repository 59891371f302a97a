use headless_sdk::scancode::name_to_scancode;

const KEYS: &[(&str, u32)] = &[
    ("MetaLeft", 0xE05B),
    ("Meta", 0xE05B),
    ("MetaRight", 0xE05C),
    ("RWin", 0xE05C),
    ("ControlRight", 0xE01D),
    ("AltRight", 0xE038),
    ("AltGr", 0xE038),
    ("ArrowUp", 0xE048),
    ("Up", 0xE048),
    ("VK_UP", 0xE048),
    ("ArrowDown", 0xE050),
    ("Down", 0xE050),
    ("VK_DOWN", 0xE050),
    ("ArrowLeft", 0xE04B),
    ("Left", 0xE04B),
    ("VK_LEFT", 0xE04B),
    ("ArrowRight", 0xE04D),
    ("Right", 0xE04D),
    ("VK_RIGHT", 0xE04D),
    ("Delete", 0xE053),
    ("Del", 0xE053),
    ("VK_DELETE", 0xE053),
    ("Insert", 0xE052),
    ("Ins", 0xE052),
    ("VK_INSERT", 0xE052),
    ("Home", 0xE047),
    ("VK_HOME", 0xE047),
    ("End", 0xE04F),
    ("VK_END", 0xE04F),
    ("PageUp", 0xE049),
    ("VK_PRIOR", 0xE049),
    ("PageDown", 0xE051),
    ("VK_NEXT", 0xE051),
    ("a", 0x1E),
    ("A", 0x1E),
    ("b", 0x30),
    ("B", 0x30),
    ("c", 0x2E),
    ("C", 0x2E),
    ("d", 0x20),
    ("D", 0x20),
    ("e", 0x12),
    ("E", 0x12),
    ("f", 0x21),
    ("F", 0x21),
    ("g", 0x22),
    ("G", 0x22),
    ("h", 0x23),
    ("H", 0x23),
    ("i", 0x17),
    ("I", 0x17),
    ("j", 0x24),
    ("J", 0x24),
    ("k", 0x25),
    ("K", 0x25),
    ("l", 0x26),
    ("L", 0x26),
    ("m", 0x32),
    ("M", 0x32),
    ("n", 0x31),
    ("N", 0x31),
    ("o", 0x18),
    ("O", 0x18),
    ("p", 0x19),
    ("P", 0x19),
    ("q", 0x10),
    ("Q", 0x10),
    ("r", 0x13),
    ("R", 0x13),
    ("s", 0x1F),
    ("S", 0x1F),
    ("t", 0x14),
    ("T", 0x14),
    ("u", 0x16),
    ("U", 0x16),
    ("v", 0x2F),
    ("V", 0x2F),
    ("w", 0x11),
    ("W", 0x11),
    ("x", 0x2D),
    ("X", 0x2D),
    ("y", 0x15),
    ("Y", 0x15),
    ("z", 0x2C),
    ("Z", 0x2C),
    ("0", 0x0B),
    ("1", 0x02),
    ("2", 0x03),
    ("3", 0x04),
    ("4", 0x05),
    ("5", 0x06),
    ("6", 0x07),
    ("7", 0x08),
    ("8", 0x09),
    ("9", 0x0A),
    ("ControlLeft", 0x1D),
    ("Control", 0x1D),
    ("VK_CONTROL", 0x1D),
    ("ShiftLeft", 0x2A),
    ("Shift", 0x2A),
    ("VK_SHIFT", 0x2A),
    ("ShiftRight", 0x36),
    ("AltLeft", 0x38),
    ("Alt", 0x38),
    ("VK_MENU", 0x38),
    ("Enter", 0x1C),
    ("Return", 0x1C),
    ("VK_RETURN", 0x1C),
    ("Space", 0x39),
    ("VK_SPACE", 0x39),
    ("Tab", 0x0F),
    ("VK_TAB", 0x0F),
    ("Escape", 0x01),
    ("Esc", 0x01),
    ("VK_ESCAPE", 0x01),
    ("Backspace", 0x0E),
    ("VK_BACK", 0x0E),
    ("PrintScreen", 0xE037),
    ("VK_SNAPSHOT", 0xE037),
    ("CapsLock", 0x3A),
    ("VK_CAPITAL", 0x3A),
    ("ScrollLock", 0x46),
    ("VK_SCROLL", 0x46),
    ("Pause", 0xE045),
    ("VK_PAUSE", 0xE045),
    ("Apps", 0xE05D),
    ("Menu", 0xE05D),
    ("F1", 0x3B),
    ("VK_F1", 0x3B),
    ("F2", 0x3C),
    ("VK_F2", 0x3C),
    ("F3", 0x3D),
    ("VK_F3", 0x3D),
    ("F4", 0x3E),
    ("VK_F4", 0x3E),
    ("F5", 0x3F),
    ("VK_F5", 0x3F),
    ("F6", 0x40),
    ("VK_F6", 0x40),
    ("F7", 0x41),
    ("VK_F7", 0x41),
    ("F8", 0x42),
    ("VK_F8", 0x42),
    ("F9", 0x43),
    ("VK_F9", 0x43),
    ("F10", 0x44),
    ("VK_F10", 0x44),
    ("F11", 0x57),
    ("VK_F11", 0x57),
    ("F12", 0x58),
    ("VK_F12", 0x58),
    ("NumLock", 0x45),
    ("VK_NUMLOCK", 0x45),
    ("Numpad0", 0x52),
    ("Numpad1", 0x4F),
    ("Numpad2", 0x50),
    ("Numpad3", 0x51),
    ("Numpad4", 0x4B),
    ("Numpad5", 0x4C),
    ("Numpad6", 0x4D),
    ("Numpad7", 0x47),
    ("Numpad8", 0x48),
    ("Numpad9", 0x49),
    ("NumpadMultiply", 0x37),
    ("Multiply", 0x37),
    ("NumpadAdd", 0x4E),
    ("Add", 0x4E),
    ("NumpadSubtract", 0x4A),
    ("Subtract", 0x4A),
    ("NumpadDecimal", 0x53),
    ("Decimal", 0x53),
    ("NumpadDivide", 0xE035),
    ("Divide", 0xE035),
    ("-", 0x0C),
    ("Minus", 0x0C),
    ("=", 0x0D),
    ("Equal", 0x0D),
    ("[", 0x1A),
    ("BracketLeft", 0x1A),
    ("]", 0x1B),
    ("BracketRight", 0x1B),
    (";", 0x27),
    ("Semicolon", 0x27),
    ("'", 0x28),
    ("Quote", 0x28),
    (",", 0x33),
    ("Comma", 0x33),
    (".", 0x34),
    ("Period", 0x34),
    ("/", 0x35),
    ("Slash", 0x35),
    ("\\", 0x2B),
    ("Backslash", 0x2B),
    ("`", 0x29),
    ("Backtick", 0x29),
];

#[test]
fn every_listed_name_has_its_code() {
    for (name, code) in KEYS {
        assert_eq!(name_to_scancode(name), Some(*code), "{}", name);
    }
    assert_eq!(KEYS.len(), 195);
}

#[test]
fn codes_are_one_byte_or_extended() {
    for (name, _) in KEYS {
        let code = name_to_scancode(name).unwrap();
        assert!(code < 0x80 || (0xE000..0xE080).contains(&code), "{}", name);
    }
}

#[test]
fn extended_keys() {
    for name in [
        "MetaLeft", "RWin", "ControlRight", "AltGr", "Up", "Down", "Left", "Right", "Insert",
        "Delete", "Home", "End", "PageUp", "PageDown",
    ] {
        assert_eq!(name_to_scancode(name).unwrap() & 0xFF00, 0xE000, "{}", name);
    }
    assert_eq!(name_to_scancode("ShiftRight"), Some(0x36));
}

#[test]
fn key_form_is_the_key_itself() {
    assert_eq!(name_to_scancode("Key0"), Some(0x0B));
    assert_eq!(name_to_scancode("Key9"), Some(0x0A));
    assert_eq!(name_to_scancode("KeyW"), Some(0x11));
    assert_eq!(name_to_scancode("Keyw"), Some(0x11));
    assert_eq!(name_to_scancode("Key-"), Some(0x0C));
}

#[test]
fn key_form_takes_one_plain_character() {
    assert_eq!(name_to_scancode("Key"), None);
    assert_eq!(name_to_scancode("KeyF1"), None);
    assert_eq!(name_to_scancode("Key\u{e9}"), None);
    assert_eq!(name_to_scancode("key5"), None);
    assert_eq!(name_to_scancode("Key "), None);
}

#[test]
fn letters_in_either_case() {
    for letter in 'a'..='z' {
        let lower = name_to_scancode(&letter.to_string());
        let upper = name_to_scancode(&letter.to_ascii_uppercase().to_string());
        assert!(lower.is_some());
        assert_eq!(lower, upper);
    }
}

#[test]
fn unknown_names_have_no_code() {
    for name in ["", "aa", "metaleft", "F13", "Numpad10", "!", " ", "\u{1F600}"] {
        assert_eq!(name_to_scancode(name), None, "{}", name);
    }
}
