//! The names of the keys as the keyboard listener knows them: the letters,
//! the digits, the arrows, a few editing keys and the left-hand modifiers.

use crate::mappings::key_name_to_evdev_code::key_name_of;
use crate::mappings::key_name_to_evdev_code::KeyNameToEvdevCode;
use vstd::prelude::*;

verus! {

/// The code is that of a letter, a digit, space, enter, escape, backspace,
/// tab, an arrow, or left ctrl, alt, shift or meta.
pub open spec fn is_basic_key(code: u16) -> bool {
    ||| 1 <= code <= 11
    ||| 14 <= code <= 25
    ||| 28 <= code <= 38
    ||| code == 42
    ||| 44 <= code <= 50
    ||| code == 56
    ||| code == 57
    ||| code == 103
    ||| code == 105
    ||| code == 106
    ||| code == 108
    ||| code == 125
}

/// The name of a basic key; no other key has one here.
pub open spec fn basic_key_name(code: u16) -> Option<Seq<char>> {
    if is_basic_key(code) {
        key_name_of(code)
    } else {
        None
    }
}

/// Whether a code is that of a basic key.
pub fn is_basic_key_code(code: u16) -> (r: bool)
    ensures
        r == is_basic_key(code),
{
    (1 <= code && code <= 11) || (14 <= code && code <= 25) || (28 <= code && code <= 38) || code
        == 42 || (44 <= code && code <= 50) || code == 56 || code == 57 || code == 103 || code
        == 105 || code == 106 || code == 108 || code == 125
}

/// Translation of the key codes of input events into key names.
pub struct EvdevToKeyName;

impl EvdevToKeyName {
    /// The name of the key with this code, if it is a basic key.
    pub fn translate(key_code: u16) -> (r: Option<&'static str>)
        ensures
            match r {
                Some(name) => basic_key_name(key_code) == Some(name@),
                None => basic_key_name(key_code) is None,
            },
    {
        if is_basic_key_code(key_code) {
            KeyNameToEvdevCode::reverse_translate(key_code)
        } else {
            None
        }
    }
}

/// Every basic key has a name.
pub proof fn lemma_basic_keys_named(code: u16)
    requires
        is_basic_key(code),
    ensures
        basic_key_name(code) is Some,
{
}

} // verus!
