//! The small key table: names and codes of the basic keys.

use crate::mappings::evdev_to_key_name::basic_key_name;
use crate::mappings::evdev_to_key_name::is_basic_key;
use crate::mappings::evdev_to_key_name::is_basic_key_code;
use crate::mappings::evdev_to_key_name::EvdevToKeyName;
use crate::mappings::key_name_to_evdev_code::is_modifier_name;
use crate::mappings::key_name_to_evdev_code::key_name_of;
use crate::mappings::key_name_to_evdev_code::lemma_key_names_distinct;
use crate::mappings::key_name_to_evdev_code::KeyNameToEvdevCode;
use crate::text::concat_str;
use crate::text::lowercase;
use vstd::prelude::*;

verus! {

/// Translation between the names and the codes of the basic keys.
pub struct KeycodeMap;

impl KeycodeMap {
    /// The code of the basic key that is called `key_name`, letter case
    /// aside. A string that names no basic key is reported as it was given.
    pub fn get_keycode(key_name: &str) -> (r: Result<u16, String>)
        ensures
            match r {
                Ok(code) => basic_key_name(code) == Some(lowercase(key_name@)),
                Err(msg) => {
                    &&& forall|code: u16| basic_key_name(code) != Some(lowercase(key_name@))
                    &&& msg@ == "Unknown key: "@ + key_name@
                },
            },
    {
        match KeyNameToEvdevCode::translate(key_name) {
            Ok(code) => {
                if is_basic_key_code(code) {
                    Ok(code)
                } else {
                    proof {
                        assert forall|other: u16| basic_key_name(other) != Some(
                            lowercase(key_name@),
                        ) by {
                            if basic_key_name(other) == Some(lowercase(key_name@)) {
                                lemma_key_names_distinct(code, other);
                            }
                        }
                    }
                    Err(concat_str("Unknown key: ", key_name))
                }
            },
            Err(msg) => Err(msg),
        }
    }

    /// The name of the basic key with this code.
    pub fn get_key_name(keycode: u16) -> (r: Option<&'static str>)
        ensures
            match r {
                Some(name) => basic_key_name(keycode) == Some(name@),
                None => basic_key_name(keycode) is None,
            },
    {
        EvdevToKeyName::translate(keycode)
    }

    /// Whether `key_name` names a modifier, letter case aside.
    pub fn is_modifier(key_name: &str) -> (r: bool)
        ensures
            r == is_modifier_name(lowercase(key_name@)),
    {
        KeyNameToEvdevCode::is_modifier(key_name)
    }
}

} // verus!
