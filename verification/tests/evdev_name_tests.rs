use ahk_rust::mappings::evdev_to_key_name::{is_basic_key_code, EvdevToKeyName};
use ahk_rust::mappings::key_name_to_evdev_code::KeyNameToEvdevCode;
use ahk_rust::services::keyboard_listener::key_mapping::KeyMapper;
use evdev::KeyCode;

#[test]
fn test_keycode_constants() {
    assert_eq!(KeyCode::KEY_A.code(), 30);
    assert_eq!(KeyCode::KEY_SPACE.code(), 57);
    assert_eq!(KeyCode::KEY_ENTER.code(), 28);
    assert_eq!(KeyCode::KEY_1.code(), 2);
    assert_eq!(KeyCode::KEY_LEFTCTRL.code(), 29);
}

#[test]
fn test_letter_keys() {
    assert_eq!(EvdevToKeyName::translate(30), Some("a"));
    assert_eq!(EvdevToKeyName::translate(44), Some("z"));
}

#[test]
fn test_number_keys() {
    assert_eq!(EvdevToKeyName::translate(2), Some("1"));
    assert_eq!(EvdevToKeyName::translate(11), Some("0"));
}

#[test]
fn test_special_keys() {
    assert_eq!(EvdevToKeyName::translate(57), Some("space"));
    assert_eq!(EvdevToKeyName::translate(28), Some("enter"));
}

#[test]
fn test_unknown_key() {
    assert_eq!(EvdevToKeyName::translate(59), None);
}

#[test]
fn basic_keys_by_their_evdev_constants() {
    let expected = [
        (KeyCode::KEY_A, "a"),
        (KeyCode::KEY_B, "b"),
        (KeyCode::KEY_C, "c"),
        (KeyCode::KEY_D, "d"),
        (KeyCode::KEY_E, "e"),
        (KeyCode::KEY_F, "f"),
        (KeyCode::KEY_G, "g"),
        (KeyCode::KEY_H, "h"),
        (KeyCode::KEY_I, "i"),
        (KeyCode::KEY_J, "j"),
        (KeyCode::KEY_K, "k"),
        (KeyCode::KEY_L, "l"),
        (KeyCode::KEY_M, "m"),
        (KeyCode::KEY_N, "n"),
        (KeyCode::KEY_O, "o"),
        (KeyCode::KEY_P, "p"),
        (KeyCode::KEY_Q, "q"),
        (KeyCode::KEY_R, "r"),
        (KeyCode::KEY_S, "s"),
        (KeyCode::KEY_T, "t"),
        (KeyCode::KEY_U, "u"),
        (KeyCode::KEY_V, "v"),
        (KeyCode::KEY_W, "w"),
        (KeyCode::KEY_X, "x"),
        (KeyCode::KEY_Y, "y"),
        (KeyCode::KEY_Z, "z"),
        (KeyCode::KEY_1, "1"),
        (KeyCode::KEY_2, "2"),
        (KeyCode::KEY_3, "3"),
        (KeyCode::KEY_4, "4"),
        (KeyCode::KEY_5, "5"),
        (KeyCode::KEY_6, "6"),
        (KeyCode::KEY_7, "7"),
        (KeyCode::KEY_8, "8"),
        (KeyCode::KEY_9, "9"),
        (KeyCode::KEY_0, "0"),
        (KeyCode::KEY_SPACE, "space"),
        (KeyCode::KEY_ENTER, "enter"),
        (KeyCode::KEY_UP, "up"),
        (KeyCode::KEY_DOWN, "down"),
        (KeyCode::KEY_LEFT, "left"),
        (KeyCode::KEY_RIGHT, "right"),
        (KeyCode::KEY_ESC, "escape"),
        (KeyCode::KEY_BACKSPACE, "backspace"),
        (KeyCode::KEY_TAB, "tab"),
        (KeyCode::KEY_LEFTCTRL, "ctrl"),
        (KeyCode::KEY_LEFTALT, "alt"),
        (KeyCode::KEY_LEFTSHIFT, "shift"),
        (KeyCode::KEY_LEFTMETA, "super"),
    ];
    for (key, name) in expected {
        assert_eq!(EvdevToKeyName::translate(key.code()), Some(name));
        assert!(is_basic_key_code(key.code()));
    }
    let named = (0u16..=1000).filter(|code| EvdevToKeyName::translate(*code).is_some()).count();
    assert_eq!(named, expected.len());
}

#[test]
fn keys_beyond_the_basic_ones_have_no_name_here() {
    for key in [
        KeyCode::KEY_F1,
        KeyCode::KEY_F12,
        KeyCode::KEY_MINUS,
        KeyCode::KEY_RIGHTCTRL,
        KeyCode::KEY_RIGHTSHIFT,
        KeyCode::KEY_KP0,
        KeyCode::KEY_INSERT,
    ] {
        assert_eq!(EvdevToKeyName::translate(key.code()), None);
        assert!(!is_basic_key_code(key.code()));
    }
    assert_eq!(KeyNameToEvdevCode::reverse_translate(KeyCode::KEY_F1.code()), Some("f1"));
    assert_eq!(EvdevToKeyName::translate(0), None);
    assert_eq!(EvdevToKeyName::translate(u16::MAX), None);
}

#[test]
fn key_mapper_names_plain_keys_only() {
    assert_eq!(KeyMapper::get_key_name(KeyCode::KEY_A.code()), Some("a".to_string()));
    assert_eq!(KeyMapper::get_key_name(KeyCode::KEY_0.code()), Some("0".to_string()));
    assert_eq!(KeyMapper::get_key_name(KeyCode::KEY_SPACE.code()), Some("space".to_string()));
    assert_eq!(KeyMapper::get_key_name(KeyCode::KEY_ENTER.code()), Some("enter".to_string()));
    assert_eq!(KeyMapper::get_key_name(KeyCode::KEY_UP.code()), Some("up".to_string()));
    assert_eq!(KeyMapper::get_key_name(KeyCode::KEY_RIGHT.code()), Some("right".to_string()));
    assert_eq!(KeyMapper::get_key_name(KeyCode::KEY_ESC.code()), None);
    assert_eq!(KeyMapper::get_key_name(KeyCode::KEY_TAB.code()), None);
    assert_eq!(KeyMapper::get_key_name(KeyCode::KEY_BACKSPACE.code()), None);
    assert_eq!(KeyMapper::get_key_name(KeyCode::KEY_LEFTCTRL.code()), None);
    assert_eq!(KeyMapper::get_key_name(KeyCode::KEY_F1.code()), None);
    let named = (0u16..=1000).filter(|code| KeyMapper::get_key_name(*code).is_some()).count();
    assert_eq!(named, 42);
}
