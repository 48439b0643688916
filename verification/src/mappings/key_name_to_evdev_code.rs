//! The names that the configuration gives to keys, and their key codes.

use crate::text::concat_str;
use crate::text::lowercase;
use crate::text::str_eq;
use crate::text::to_lowercase;
use vstd::prelude::*;

verus! {

/// The configuration name of the key with this code, for the keys that have
/// one: letters, digits, punctuation, editing and navigation keys, the numeric
/// pad, the function keys and the left-hand modifiers.
pub open spec fn key_name_of(code: u16) -> Option<Seq<char>> {
    if code == 30 {
        Some("a"@)
    } else if code == 48 {
        Some("b"@)
    } else if code == 46 {
        Some("c"@)
    } else if code == 32 {
        Some("d"@)
    } else if code == 18 {
        Some("e"@)
    } else if code == 33 {
        Some("f"@)
    } else if code == 34 {
        Some("g"@)
    } else if code == 35 {
        Some("h"@)
    } else if code == 23 {
        Some("i"@)
    } else if code == 36 {
        Some("j"@)
    } else if code == 37 {
        Some("k"@)
    } else if code == 38 {
        Some("l"@)
    } else if code == 50 {
        Some("m"@)
    } else if code == 49 {
        Some("n"@)
    } else if code == 24 {
        Some("o"@)
    } else if code == 25 {
        Some("p"@)
    } else if code == 16 {
        Some("q"@)
    } else if code == 19 {
        Some("r"@)
    } else if code == 31 {
        Some("s"@)
    } else if code == 20 {
        Some("t"@)
    } else if code == 22 {
        Some("u"@)
    } else if code == 47 {
        Some("v"@)
    } else if code == 17 {
        Some("w"@)
    } else if code == 45 {
        Some("x"@)
    } else if code == 21 {
        Some("y"@)
    } else if code == 44 {
        Some("z"@)
    } else if code == 2 {
        Some("1"@)
    } else if code == 3 {
        Some("2"@)
    } else if code == 4 {
        Some("3"@)
    } else if code == 5 {
        Some("4"@)
    } else if code == 6 {
        Some("5"@)
    } else if code == 7 {
        Some("6"@)
    } else if code == 8 {
        Some("7"@)
    } else if code == 9 {
        Some("8"@)
    } else if code == 10 {
        Some("9"@)
    } else if code == 11 {
        Some("0"@)
    } else if code == 57 {
        Some("space"@)
    } else if code == 28 {
        Some("enter"@)
    } else if code == 1 {
        Some("escape"@)
    } else if code == 14 {
        Some("backspace"@)
    } else if code == 15 {
        Some("tab"@)
    } else if code == 29 {
        Some("ctrl"@)
    } else if code == 56 {
        Some("alt"@)
    } else if code == 42 {
        Some("shift"@)
    } else if code == 125 {
        Some("super"@)
    } else if code == 103 {
        Some("up"@)
    } else if code == 108 {
        Some("down"@)
    } else if code == 105 {
        Some("left"@)
    } else if code == 106 {
        Some("right"@)
    } else if code == 59 {
        Some("f1"@)
    } else if code == 60 {
        Some("f2"@)
    } else if code == 61 {
        Some("f3"@)
    } else if code == 62 {
        Some("f4"@)
    } else if code == 63 {
        Some("f5"@)
    } else if code == 64 {
        Some("f6"@)
    } else if code == 65 {
        Some("f7"@)
    } else if code == 66 {
        Some("f8"@)
    } else if code == 67 {
        Some("f9"@)
    } else if code == 68 {
        Some("f10"@)
    } else if code == 87 {
        Some("f11"@)
    } else if code == 88 {
        Some("f12"@)
    } else if code == 12 {
        Some("minus"@)
    } else if code == 13 {
        Some("equal"@)
    } else if code == 26 {
        Some("leftbrace"@)
    } else if code == 27 {
        Some("rightbrace"@)
    } else if code == 43 {
        Some("backslash"@)
    } else if code == 39 {
        Some("semicolon"@)
    } else if code == 40 {
        Some("apostrophe"@)
    } else if code == 41 {
        Some("grave"@)
    } else if code == 51 {
        Some("comma"@)
    } else if code == 52 {
        Some("dot"@)
    } else if code == 53 {
        Some("slash"@)
    } else if code == 110 {
        Some("insert"@)
    } else if code == 111 {
        Some("delete"@)
    } else if code == 102 {
        Some("home"@)
    } else if code == 107 {
        Some("end"@)
    } else if code == 104 {
        Some("pageup"@)
    } else if code == 109 {
        Some("pagedown"@)
    } else if code == 99 {
        Some("printscreen"@)
    } else if code == 70 {
        Some("scrolllock"@)
    } else if code == 119 {
        Some("pause"@)
    } else if code == 82 {
        Some("kp0"@)
    } else if code == 79 {
        Some("kp1"@)
    } else if code == 80 {
        Some("kp2"@)
    } else if code == 81 {
        Some("kp3"@)
    } else if code == 75 {
        Some("kp4"@)
    } else if code == 76 {
        Some("kp5"@)
    } else if code == 77 {
        Some("kp6"@)
    } else if code == 71 {
        Some("kp7"@)
    } else if code == 72 {
        Some("kp8"@)
    } else if code == 73 {
        Some("kp9"@)
    } else if code == 83 {
        Some("kpdecimal"@)
    } else if code == 98 {
        Some("kpdivide"@)
    } else if code == 55 {
        Some("kpmultiply"@)
    } else if code == 78 {
        Some("kpadd"@)
    } else if code == 74 {
        Some("kpsubtract"@)
    } else if code == 96 {
        Some("kpenter"@)
    } else {
        None
    }
}

/// `name` is one of the four modifier names.
pub open spec fn is_modifier_name(name: Seq<char>) -> bool {
    name == "ctrl"@ || name == "alt"@ || name == "shift"@ || name == "super"@
}

/// Translation between key names and key codes.
pub struct KeyNameToEvdevCode;

impl KeyNameToEvdevCode {
    /// The code of the key that is called `key_name`, letter case aside. A
    /// string that names no key is reported with the string as it was given.
    pub fn translate(key_name: &str) -> (r: Result<u16, String>)
        ensures
            match r {
                Ok(code) => key_name_of(code) == Some(lowercase(key_name@)),
                Err(msg) => {
                    &&& forall|code: u16| key_name_of(code) != Some(lowercase(key_name@))
                    &&& msg@ == "Unknown key: "@ + key_name@
                },
            },
    {
        let normalized = to_lowercase(key_name);
        let name = normalized.as_str();
        if str_eq(name, "a") {
            return Ok(30);
        }
        if str_eq(name, "b") {
            return Ok(48);
        }
        if str_eq(name, "c") {
            return Ok(46);
        }
        if str_eq(name, "d") {
            return Ok(32);
        }
        if str_eq(name, "e") {
            return Ok(18);
        }
        if str_eq(name, "f") {
            return Ok(33);
        }
        if str_eq(name, "g") {
            return Ok(34);
        }
        if str_eq(name, "h") {
            return Ok(35);
        }
        if str_eq(name, "i") {
            return Ok(23);
        }
        if str_eq(name, "j") {
            return Ok(36);
        }
        if str_eq(name, "k") {
            return Ok(37);
        }
        if str_eq(name, "l") {
            return Ok(38);
        }
        if str_eq(name, "m") {
            return Ok(50);
        }
        if str_eq(name, "n") {
            return Ok(49);
        }
        if str_eq(name, "o") {
            return Ok(24);
        }
        if str_eq(name, "p") {
            return Ok(25);
        }
        if str_eq(name, "q") {
            return Ok(16);
        }
        if str_eq(name, "r") {
            return Ok(19);
        }
        if str_eq(name, "s") {
            return Ok(31);
        }
        if str_eq(name, "t") {
            return Ok(20);
        }
        if str_eq(name, "u") {
            return Ok(22);
        }
        if str_eq(name, "v") {
            return Ok(47);
        }
        if str_eq(name, "w") {
            return Ok(17);
        }
        if str_eq(name, "x") {
            return Ok(45);
        }
        if str_eq(name, "y") {
            return Ok(21);
        }
        if str_eq(name, "z") {
            return Ok(44);
        }
        if str_eq(name, "1") {
            return Ok(2);
        }
        if str_eq(name, "2") {
            return Ok(3);
        }
        if str_eq(name, "3") {
            return Ok(4);
        }
        if str_eq(name, "4") {
            return Ok(5);
        }
        if str_eq(name, "5") {
            return Ok(6);
        }
        if str_eq(name, "6") {
            return Ok(7);
        }
        if str_eq(name, "7") {
            return Ok(8);
        }
        if str_eq(name, "8") {
            return Ok(9);
        }
        if str_eq(name, "9") {
            return Ok(10);
        }
        if str_eq(name, "0") {
            return Ok(11);
        }
        if str_eq(name, "space") {
            return Ok(57);
        }
        if str_eq(name, "enter") {
            return Ok(28);
        }
        if str_eq(name, "escape") {
            return Ok(1);
        }
        if str_eq(name, "backspace") {
            return Ok(14);
        }
        if str_eq(name, "tab") {
            return Ok(15);
        }
        if str_eq(name, "minus") {
            return Ok(12);
        }
        if str_eq(name, "equal") {
            return Ok(13);
        }
        if str_eq(name, "leftbrace") {
            return Ok(26);
        }
        if str_eq(name, "rightbrace") {
            return Ok(27);
        }
        if str_eq(name, "backslash") {
            return Ok(43);
        }
        if str_eq(name, "semicolon") {
            return Ok(39);
        }
        if str_eq(name, "apostrophe") {
            return Ok(40);
        }
        if str_eq(name, "grave") {
            return Ok(41);
        }
        if str_eq(name, "comma") {
            return Ok(51);
        }
        if str_eq(name, "dot") {
            return Ok(52);
        }
        if str_eq(name, "slash") {
            return Ok(53);
        }
        if str_eq(name, "insert") {
            return Ok(110);
        }
        if str_eq(name, "delete") {
            return Ok(111);
        }
        if str_eq(name, "home") {
            return Ok(102);
        }
        if str_eq(name, "end") {
            return Ok(107);
        }
        if str_eq(name, "pageup") {
            return Ok(104);
        }
        if str_eq(name, "pagedown") {
            return Ok(109);
        }
        if str_eq(name, "printscreen") {
            return Ok(99);
        }
        if str_eq(name, "scrolllock") {
            return Ok(70);
        }
        if str_eq(name, "pause") {
            return Ok(119);
        }
        if str_eq(name, "kp0") {
            return Ok(82);
        }
        if str_eq(name, "kp1") {
            return Ok(79);
        }
        if str_eq(name, "kp2") {
            return Ok(80);
        }
        if str_eq(name, "kp3") {
            return Ok(81);
        }
        if str_eq(name, "kp4") {
            return Ok(75);
        }
        if str_eq(name, "kp5") {
            return Ok(76);
        }
        if str_eq(name, "kp6") {
            return Ok(77);
        }
        if str_eq(name, "kp7") {
            return Ok(71);
        }
        if str_eq(name, "kp8") {
            return Ok(72);
        }
        if str_eq(name, "kp9") {
            return Ok(73);
        }
        if str_eq(name, "kpdecimal") {
            return Ok(83);
        }
        if str_eq(name, "kpdivide") {
            return Ok(98);
        }
        if str_eq(name, "kpmultiply") {
            return Ok(55);
        }
        if str_eq(name, "kpadd") {
            return Ok(78);
        }
        if str_eq(name, "kpsubtract") {
            return Ok(74);
        }
        if str_eq(name, "kpenter") {
            return Ok(96);
        }
        if str_eq(name, "ctrl") {
            return Ok(29);
        }
        if str_eq(name, "alt") {
            return Ok(56);
        }
        if str_eq(name, "shift") {
            return Ok(42);
        }
        if str_eq(name, "super") {
            return Ok(125);
        }
        if str_eq(name, "up") {
            return Ok(103);
        }
        if str_eq(name, "down") {
            return Ok(108);
        }
        if str_eq(name, "left") {
            return Ok(105);
        }
        if str_eq(name, "right") {
            return Ok(106);
        }
        if str_eq(name, "f1") {
            return Ok(59);
        }
        if str_eq(name, "f2") {
            return Ok(60);
        }
        if str_eq(name, "f3") {
            return Ok(61);
        }
        if str_eq(name, "f4") {
            return Ok(62);
        }
        if str_eq(name, "f5") {
            return Ok(63);
        }
        if str_eq(name, "f6") {
            return Ok(64);
        }
        if str_eq(name, "f7") {
            return Ok(65);
        }
        if str_eq(name, "f8") {
            return Ok(66);
        }
        if str_eq(name, "f9") {
            return Ok(67);
        }
        if str_eq(name, "f10") {
            return Ok(68);
        }
        if str_eq(name, "f11") {
            return Ok(87);
        }
        if str_eq(name, "f12") {
            return Ok(88);
        }
        Err(concat_str("Unknown key: ", key_name))
    }

    /// The name of the key with this code, if it has one.
    pub fn reverse_translate(keycode: u16) -> (r: Option<&'static str>)
        ensures
            match r {
                Some(name) => key_name_of(keycode) == Some(name@),
                None => key_name_of(keycode) is None,
            },
    {
        match keycode {
            30 => Some("a"),
            48 => Some("b"),
            46 => Some("c"),
            32 => Some("d"),
            18 => Some("e"),
            33 => Some("f"),
            34 => Some("g"),
            35 => Some("h"),
            23 => Some("i"),
            36 => Some("j"),
            37 => Some("k"),
            38 => Some("l"),
            50 => Some("m"),
            49 => Some("n"),
            24 => Some("o"),
            25 => Some("p"),
            16 => Some("q"),
            19 => Some("r"),
            31 => Some("s"),
            20 => Some("t"),
            22 => Some("u"),
            47 => Some("v"),
            17 => Some("w"),
            45 => Some("x"),
            21 => Some("y"),
            44 => Some("z"),
            2 => Some("1"),
            3 => Some("2"),
            4 => Some("3"),
            5 => Some("4"),
            6 => Some("5"),
            7 => Some("6"),
            8 => Some("7"),
            9 => Some("8"),
            10 => Some("9"),
            11 => Some("0"),
            57 => Some("space"),
            28 => Some("enter"),
            1 => Some("escape"),
            14 => Some("backspace"),
            15 => Some("tab"),
            29 => Some("ctrl"),
            56 => Some("alt"),
            42 => Some("shift"),
            125 => Some("super"),
            103 => Some("up"),
            108 => Some("down"),
            105 => Some("left"),
            106 => Some("right"),
            59 => Some("f1"),
            60 => Some("f2"),
            61 => Some("f3"),
            62 => Some("f4"),
            63 => Some("f5"),
            64 => Some("f6"),
            65 => Some("f7"),
            66 => Some("f8"),
            67 => Some("f9"),
            68 => Some("f10"),
            87 => Some("f11"),
            88 => Some("f12"),
            12 => Some("minus"),
            13 => Some("equal"),
            26 => Some("leftbrace"),
            27 => Some("rightbrace"),
            43 => Some("backslash"),
            39 => Some("semicolon"),
            40 => Some("apostrophe"),
            41 => Some("grave"),
            51 => Some("comma"),
            52 => Some("dot"),
            53 => Some("slash"),
            110 => Some("insert"),
            111 => Some("delete"),
            102 => Some("home"),
            107 => Some("end"),
            104 => Some("pageup"),
            109 => Some("pagedown"),
            99 => Some("printscreen"),
            70 => Some("scrolllock"),
            119 => Some("pause"),
            82 => Some("kp0"),
            79 => Some("kp1"),
            80 => Some("kp2"),
            81 => Some("kp3"),
            75 => Some("kp4"),
            76 => Some("kp5"),
            77 => Some("kp6"),
            71 => Some("kp7"),
            72 => Some("kp8"),
            73 => Some("kp9"),
            83 => Some("kpdecimal"),
            98 => Some("kpdivide"),
            55 => Some("kpmultiply"),
            78 => Some("kpadd"),
            74 => Some("kpsubtract"),
            96 => Some("kpenter"),
            _ => None,
        }
    }

    /// Whether `key_name` names a modifier, letter case aside.
    pub fn is_modifier(key_name: &str) -> (r: bool)
        ensures
            r == is_modifier_name(lowercase(key_name@)),
    {
        let normalized = to_lowercase(key_name);
        let name = normalized.as_str();
        str_eq(name, "ctrl") || str_eq(name, "alt") || str_eq(name, "shift") || str_eq(
            name,
            "super",
        )
    }
}

/// No two keys share a name: a name that the table gives to a key belongs to
/// that key alone, so the code that `translate` finds for it is the only one.
pub proof fn lemma_key_names_distinct(a: u16, b: u16)
    requires
        key_name_of(a) is Some,
        key_name_of(a) == key_name_of(b),
    ensures
        a == b,
{
    reveal_strlit("a");
    reveal_strlit("b");
    reveal_strlit("c");
    reveal_strlit("d");
    reveal_strlit("e");
    reveal_strlit("f");
    reveal_strlit("g");
    reveal_strlit("h");
    reveal_strlit("i");
    reveal_strlit("j");
    reveal_strlit("k");
    reveal_strlit("l");
    reveal_strlit("m");
    reveal_strlit("n");
    reveal_strlit("o");
    reveal_strlit("p");
    reveal_strlit("q");
    reveal_strlit("r");
    reveal_strlit("s");
    reveal_strlit("t");
    reveal_strlit("u");
    reveal_strlit("v");
    reveal_strlit("w");
    reveal_strlit("x");
    reveal_strlit("y");
    reveal_strlit("z");
    reveal_strlit("1");
    reveal_strlit("2");
    reveal_strlit("3");
    reveal_strlit("4");
    reveal_strlit("5");
    reveal_strlit("6");
    reveal_strlit("7");
    reveal_strlit("8");
    reveal_strlit("9");
    reveal_strlit("0");
    reveal_strlit("space");
    reveal_strlit("enter");
    reveal_strlit("escape");
    reveal_strlit("backspace");
    reveal_strlit("tab");
    reveal_strlit("minus");
    reveal_strlit("equal");
    reveal_strlit("leftbrace");
    reveal_strlit("rightbrace");
    reveal_strlit("backslash");
    reveal_strlit("semicolon");
    reveal_strlit("apostrophe");
    reveal_strlit("grave");
    reveal_strlit("comma");
    reveal_strlit("dot");
    reveal_strlit("slash");
    reveal_strlit("insert");
    reveal_strlit("delete");
    reveal_strlit("home");
    reveal_strlit("end");
    reveal_strlit("pageup");
    reveal_strlit("pagedown");
    reveal_strlit("printscreen");
    reveal_strlit("scrolllock");
    reveal_strlit("pause");
    reveal_strlit("kp0");
    reveal_strlit("kp1");
    reveal_strlit("kp2");
    reveal_strlit("kp3");
    reveal_strlit("kp4");
    reveal_strlit("kp5");
    reveal_strlit("kp6");
    reveal_strlit("kp7");
    reveal_strlit("kp8");
    reveal_strlit("kp9");
    reveal_strlit("kpdecimal");
    reveal_strlit("kpdivide");
    reveal_strlit("kpmultiply");
    reveal_strlit("kpadd");
    reveal_strlit("kpsubtract");
    reveal_strlit("kpenter");
    reveal_strlit("ctrl");
    reveal_strlit("alt");
    reveal_strlit("shift");
    reveal_strlit("super");
    reveal_strlit("up");
    reveal_strlit("down");
    reveal_strlit("left");
    reveal_strlit("right");
    reveal_strlit("f1");
    reveal_strlit("f2");
    reveal_strlit("f3");
    reveal_strlit("f4");
    reveal_strlit("f5");
    reveal_strlit("f6");
    reveal_strlit("f7");
    reveal_strlit("f8");
    reveal_strlit("f9");
    reveal_strlit("f10");
    reveal_strlit("f11");
    reveal_strlit("f12");
    let name = key_name_of(a)->0;
    let probe = (name.len(), name[0], name[1], name[2], name[5]);
}

} // verus!
