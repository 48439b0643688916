use ahk_rust::mappings::key_name_to_evdev_code::KeyNameToEvdevCode;

#[test]
fn key_name_to_evdev_code_test_basic_key_mapping() {
    assert_eq!(KeyNameToEvdevCode::translate("a").unwrap(), 30);
    assert_eq!(KeyNameToEvdevCode::translate("space").unwrap(), 57);
    assert_eq!(KeyNameToEvdevCode::translate("ctrl").unwrap(), 29);
}

#[test]
fn key_name_to_evdev_code_test_case_insensitive() {
    assert_eq!(KeyNameToEvdevCode::translate("A").unwrap(), 30);
    assert_eq!(KeyNameToEvdevCode::translate("SPACE").unwrap(), 57);
}

#[test]
fn key_name_to_evdev_code_test_reverse_mapping() {
    assert_eq!(KeyNameToEvdevCode::reverse_translate(30), Some("a"));
    assert_eq!(KeyNameToEvdevCode::reverse_translate(57), Some("space"));
}

#[test]
fn key_name_to_evdev_code_test_invalid_key() {
    assert!(KeyNameToEvdevCode::translate("invalid_key").is_err());
}

#[test]
fn key_name_to_evdev_code_test_modifier_detection() {
    assert!(KeyNameToEvdevCode::is_modifier("ctrl"));
    assert!(KeyNameToEvdevCode::is_modifier("SHIFT"));
    assert!(!KeyNameToEvdevCode::is_modifier("a"));
    assert!(!KeyNameToEvdevCode::is_modifier("space"));
}

#[test]
fn test_function_keys() {
    assert_eq!(KeyNameToEvdevCode::translate("f1").unwrap(), 59);
    assert_eq!(KeyNameToEvdevCode::translate("F12").unwrap(), 88);
    assert_eq!(KeyNameToEvdevCode::reverse_translate(59), Some("f1"));
    assert_eq!(KeyNameToEvdevCode::reverse_translate(88), Some("f12"));
}

#[test]
fn test_punctuation_keys_translate_and_reverse() {
    assert_eq!(KeyNameToEvdevCode::translate("minus").unwrap(), 12);
    assert_eq!(KeyNameToEvdevCode::reverse_translate(12), Some("minus"));
    assert_eq!(KeyNameToEvdevCode::translate("equal").unwrap(), 13);
    assert_eq!(KeyNameToEvdevCode::reverse_translate(13), Some("equal"));
    assert_eq!(KeyNameToEvdevCode::translate("leftbrace").unwrap(), 26);
    assert_eq!(KeyNameToEvdevCode::reverse_translate(26), Some("leftbrace"));
    assert_eq!(KeyNameToEvdevCode::translate("semicolon").unwrap(), 39);
    assert_eq!(KeyNameToEvdevCode::reverse_translate(39), Some("semicolon"));
    assert_eq!(KeyNameToEvdevCode::translate("apostrophe").unwrap(), 40);
    assert_eq!(KeyNameToEvdevCode::reverse_translate(40), Some("apostrophe"));
    assert_eq!(KeyNameToEvdevCode::translate("backslash").unwrap(), 43);
    assert_eq!(KeyNameToEvdevCode::reverse_translate(43), Some("backslash"));
    assert_eq!(KeyNameToEvdevCode::translate("grave").unwrap(), 41);
    assert_eq!(KeyNameToEvdevCode::reverse_translate(41), Some("grave"));
    assert_eq!(KeyNameToEvdevCode::translate("comma").unwrap(), 51);
    assert_eq!(KeyNameToEvdevCode::reverse_translate(51), Some("comma"));
    assert_eq!(KeyNameToEvdevCode::translate("dot").unwrap(), 52);
    assert_eq!(KeyNameToEvdevCode::reverse_translate(52), Some("dot"));
    assert_eq!(KeyNameToEvdevCode::translate("slash").unwrap(), 53);
    assert_eq!(KeyNameToEvdevCode::reverse_translate(53), Some("slash"));
}

#[test]
fn test_navigation_system_numpad_keys() {
    assert_eq!(KeyNameToEvdevCode::translate("insert").unwrap(), 110);
    assert_eq!(KeyNameToEvdevCode::reverse_translate(110), Some("insert"));
    assert_eq!(KeyNameToEvdevCode::translate("delete").unwrap(), 111);
    assert_eq!(KeyNameToEvdevCode::reverse_translate(111), Some("delete"));
    assert_eq!(KeyNameToEvdevCode::translate("home").unwrap(), 102);
    assert_eq!(KeyNameToEvdevCode::reverse_translate(102), Some("home"));
    assert_eq!(KeyNameToEvdevCode::translate("end").unwrap(), 107);
    assert_eq!(KeyNameToEvdevCode::reverse_translate(107), Some("end"));
    assert_eq!(KeyNameToEvdevCode::translate("pageup").unwrap(), 104);
    assert_eq!(KeyNameToEvdevCode::reverse_translate(104), Some("pageup"));
    assert_eq!(KeyNameToEvdevCode::translate("pagedown").unwrap(), 109);
    assert_eq!(KeyNameToEvdevCode::reverse_translate(109), Some("pagedown"));

    assert_eq!(KeyNameToEvdevCode::translate("printscreen").unwrap(), 99);
    assert_eq!(KeyNameToEvdevCode::reverse_translate(99), Some("printscreen"));
    assert_eq!(KeyNameToEvdevCode::translate("scrolllock").unwrap(), 70);
    assert_eq!(KeyNameToEvdevCode::reverse_translate(70), Some("scrolllock"));
    assert_eq!(KeyNameToEvdevCode::translate("pause").unwrap(), 119);
    assert_eq!(KeyNameToEvdevCode::reverse_translate(119), Some("pause"));

    assert_eq!(KeyNameToEvdevCode::translate("kp0").unwrap(), 82);
    assert_eq!(KeyNameToEvdevCode::reverse_translate(82), Some("kp0"));
    assert_eq!(KeyNameToEvdevCode::translate("kpadd").unwrap(), 78);
    assert_eq!(KeyNameToEvdevCode::reverse_translate(78), Some("kpadd"));
    assert_eq!(KeyNameToEvdevCode::translate("kpsubtract").unwrap(), 74);
    assert_eq!(KeyNameToEvdevCode::reverse_translate(74), Some("kpsubtract"));
    assert_eq!(KeyNameToEvdevCode::translate("kpmultiply").unwrap(), 55);
    assert_eq!(KeyNameToEvdevCode::reverse_translate(55), Some("kpmultiply"));
    assert_eq!(KeyNameToEvdevCode::translate("kpdivide").unwrap(), 98);
    assert_eq!(KeyNameToEvdevCode::reverse_translate(98), Some("kpdivide"));
    assert_eq!(KeyNameToEvdevCode::translate("kpdecimal").unwrap(), 83);
    assert_eq!(KeyNameToEvdevCode::reverse_translate(83), Some("kpdecimal"));
    assert_eq!(KeyNameToEvdevCode::translate("kpenter").unwrap(), 96);
    assert_eq!(KeyNameToEvdevCode::reverse_translate(96), Some("kpenter"));
}


const TABLE: [(&str, u16); 97] = [("a", 30), ("b", 48), ("c", 46), ("d", 32), ("e", 18), ("f", 33), ("g", 34), ("h", 35), ("i", 23), ("j", 36), ("k", 37), ("l", 38), ("m", 50), ("n", 49), ("o", 24), ("p", 25), ("q", 16), ("r", 19), ("s", 31), ("t", 20), ("u", 22), ("v", 47), ("w", 17), ("x", 45), ("y", 21), ("z", 44), ("1", 2), ("2", 3), ("3", 4), ("4", 5), ("5", 6), ("6", 7), ("7", 8), ("8", 9), ("9", 10), ("0", 11), ("space", 57), ("enter", 28), ("escape", 1), ("backspace", 14), ("tab", 15), ("minus", 12), ("equal", 13), ("leftbrace", 26), ("rightbrace", 27), ("backslash", 43), ("semicolon", 39), ("apostrophe", 40), ("grave", 41), ("comma", 51), ("dot", 52), ("slash", 53), ("insert", 110), ("delete", 111), ("home", 102), ("end", 107), ("pageup", 104), ("pagedown", 109), ("printscreen", 99), ("scrolllock", 70), ("pause", 119), ("kp0", 82), ("kp1", 79), ("kp2", 80), ("kp3", 81), ("kp4", 75), ("kp5", 76), ("kp6", 77), ("kp7", 71), ("kp8", 72), ("kp9", 73), ("kpdecimal", 83), ("kpdivide", 98), ("kpmultiply", 55), ("kpadd", 78), ("kpsubtract", 74), ("kpenter", 96), ("ctrl", 29), ("alt", 56), ("shift", 42), ("super", 125), ("up", 103), ("down", 108), ("left", 105), ("right", 106), ("f1", 59), ("f2", 60), ("f3", 61), ("f4", 62), ("f5", 63), ("f6", 64), ("f7", 65), ("f8", 66), ("f9", 67), ("f10", 68), ("f11", 87), ("f12", 88)];

#[test]
fn every_name_translates_to_its_code_and_back() {
    for (name, code) in TABLE {
        assert_eq!(KeyNameToEvdevCode::translate(name), Ok(code));
        assert_eq!(KeyNameToEvdevCode::translate(&name.to_uppercase()), Ok(code));
        assert_eq!(KeyNameToEvdevCode::reverse_translate(code), Some(name));
    }
}

#[test]
fn codes_outside_the_table_have_no_name() {
    let known: Vec<u16> = TABLE.iter().map(|entry| entry.1).collect();
    for code in 0u16..=1000 {
        if !known.contains(&code) {
            assert_eq!(KeyNameToEvdevCode::reverse_translate(code), None);
        }
    }
    assert_eq!(KeyNameToEvdevCode::reverse_translate(u16::MAX), None);
}

#[test]
fn an_unknown_name_is_reported_as_given() {
    assert_eq!(
        KeyNameToEvdevCode::translate("Invalid_Key"),
        Err("Unknown key: Invalid_Key".to_string())
    );
    assert_eq!(KeyNameToEvdevCode::translate(""), Err("Unknown key: ".to_string()));
    assert_eq!(KeyNameToEvdevCode::translate(" a"), Err("Unknown key:  a".to_string()));
}

#[test]
fn modifier_names_in_any_case() {
    for name in ["ctrl", "alt", "shift", "super", "Ctrl", "ALT", "sHiFt", "SUPER"] {
        assert!(KeyNameToEvdevCode::is_modifier(name));
    }
    for name in ["", "control", "meta", "ctrl ", "f1"] {
        assert!(!KeyNameToEvdevCode::is_modifier(name));
    }
}
