//! The names of the keys that need no modifier: letters, digits, space,
//! enter and the arrows.

use crate::mappings::key_name_to_evdev_code::key_name_of;
use crate::mappings::key_name_to_evdev_code::KeyNameToEvdevCode;
use vstd::prelude::*;
use vstd::string::StringExecFns;

verus! {

/// The code is that of a letter, a digit, space, enter or an arrow.
pub open spec fn is_plain_key(code: u16) -> bool {
    ||| 2 <= code <= 11
    ||| 16 <= code <= 25
    ||| code == 28
    ||| 30 <= code <= 38
    ||| 44 <= code <= 50
    ||| code == 57
    ||| code == 103
    ||| code == 105
    ||| code == 106
    ||| code == 108
}

/// The name of a plain key; no other key has one here.
pub open spec fn plain_key_name(code: u16) -> Option<Seq<char>> {
    if is_plain_key(code) {
        key_name_of(code)
    } else {
        None
    }
}

pub struct KeyMapper;

impl KeyMapper {
    /// The name of the key with this code, if it is a plain key.
    pub fn get_key_name(key_code: u16) -> (r: Option<String>)
        ensures
            match r {
                Some(name) => plain_key_name(key_code) == Some(name@),
                None => plain_key_name(key_code) is None,
            },
    {
        let plain = (2 <= key_code && key_code <= 11) || (16 <= key_code && key_code <= 25)
            || key_code == 28 || (30 <= key_code && key_code <= 38) || (44 <= key_code && key_code
            <= 50) || key_code == 57 || key_code == 103 || key_code == 105 || key_code == 106
            || key_code == 108;
        if !plain {
            return None;
        }
        match KeyNameToEvdevCode::reverse_translate(key_code) {
            Some(name) => Some(String::from_str(name)),
            None => None,
        }
    }
}

} // verus!
