use keywatch::translate::{translate, translate_inverse};

#[test]
fn named_codes_translate_to_table_names() {
    let expected: Vec<(u8, &str)> = vec![
        (0x30, "Key0"),
        (0x31, "Key1"),
        (0x39, "Key9"),
        (0x70, "F1"),
        (0x79, "F10"),
        (0x7B, "F12"),
        (0x1B, "Escape"),
        (0x20, "Space"),
        (0xA2, "LControl"),
        (0xA3, "RControl"),
        (0x11, "Control"),
        (0xA0, "LShift"),
        (0xA1, "RShift"),
        (0x12, "LAlt"),
        (0x5B, "Meta"),
        (0x0D, "Enter"),
        (0x26, "Up"),
        (0x28, "Down"),
        (0x25, "Left"),
        (0x27, "Right"),
        (0x08, "Backspace"),
        (0x14, "CapsLock"),
        (0x09, "Tab"),
        (0x24, "Home"),
        (0x23, "End"),
        (0x21, "PageUp"),
        (0x22, "PageDown"),
        (0x2D, "Insert"),
        (0x2E, "Delete"),
        (0x60, "Numpad0"),
        (0x69, "Numpad9"),
        (0xC0, "Grave"),
        (0xBD, "Minus"),
        (0xDB, "LeftBracket"),
        (0xDD, "RightBracket"),
        (0xDC, "Backslash"),
        (0xBA, "Semicolon"),
        (0xDE, "Apostrophe"),
        (0xBC, "Comma"),
        (0xBE, "Dot"),
        (0xBF, "Slash"),
    ];
    for (code, name) in expected {
        assert_eq!(translate(code), name.to_string());
    }
}

#[test]
fn unmapped_codes_fall_back_to_their_character() {
    assert_eq!(translate(0x41), "A".to_string());
    assert_eq!(translate(0x5A), "Z".to_string());
    assert_eq!(translate(0x2A), "*".to_string());
}

#[test]
fn translation_is_total_over_all_codes() {
    for code in 0u8..=255u8 {
        let name = translate(code);
        assert!(!name.is_empty());
    }
}

#[test]
fn translate_round_trips_over_the_vocabulary() {
    let vocabulary = vec![
        "Key0", "Key1", "Key2", "Key3", "Key4", "Key5", "Key6", "Key7", "Key8", "Key9", "F1",
        "F2", "F3", "F4", "F5", "F6", "F7", "F8", "F9", "F10", "F11", "F12", "Escape", "Space",
        "LControl", "RControl", "Control", "LShift", "RShift", "LAlt", "Meta", "Enter", "Up",
        "Down", "Left", "Right", "Backspace", "CapsLock", "Tab", "Home", "End", "PageUp",
        "PageDown", "Insert", "Delete", "Numpad0", "Numpad1", "Numpad2", "Numpad3", "Numpad4",
        "Numpad5", "Numpad6", "Numpad7", "Numpad8", "Numpad9", "Grave", "Minus", "LeftBracket",
        "RightBracket", "Backslash", "Semicolon", "Apostrophe", "Comma", "Dot", "Slash",
    ];
    for name in vocabulary {
        let name = name.to_string();
        let code = translate_inverse(&name).expect("vocabulary name must have a code");
        assert_eq!(translate(code), name);
    }
}

#[test]
fn names_outside_the_vocabulary_have_no_code() {
    assert_eq!(translate_inverse(&"A".to_string()), None);
    assert_eq!(translate_inverse(&"".to_string()), None);
    assert_eq!(translate_inverse(&"ControlB".to_string()), None);
}

#[test]
fn press_and_release_names_agree() {
    for code in 0u8..=255u8 {
        assert_eq!(translate(code), translate(code));
    }
}
