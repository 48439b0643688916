//! Identifiers of the devices that key events come from.

use vstd::prelude::*;

verus! {

pub const LISTENER_VIRTUAL_KEYBOARD: u8 = 0;

pub const REPEATER_VIRTUAL_KEYBOARD: u8 = 1;

/// The display name that belongs to a device identifier.
pub open spec fn device_name(device_id: u8) -> Seq<char> {
    if device_id == LISTENER_VIRTUAL_KEYBOARD {
        "Listener Virtual Keyboard"@
    } else if device_id == REPEATER_VIRTUAL_KEYBOARD {
        "Repeater Virtual Keyboard"@
    } else {
        "Unknown Device"@
    }
}

pub fn name(device_id: u8) -> (r: &'static str)
    ensures
        r@ == device_name(device_id),
{
    if device_id == LISTENER_VIRTUAL_KEYBOARD {
        "Listener Virtual Keyboard"
    } else if device_id == REPEATER_VIRTUAL_KEYBOARD {
        "Repeater Virtual Keyboard"
    } else {
        "Unknown Device"
    }
}

} // verus!
