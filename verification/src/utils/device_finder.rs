//! The choice of the keyboard device. The caller lists the device nodes and
//! finds out which of them can be opened and which have the keys of a
//! keyboard; the rules by which one of them is chosen are here.

use crate::error::AhkError;
use crate::error::AhkErrorView;
use crate::text::concat_str;
use crate::text::has_suffix;
use crate::text::is_substring;
use crate::text::lowercase;
use crate::text::has_prefix;
use crate::text::str_contains;
use crate::text::str_ends_with;
use crate::text::str_eq;
use crate::text::str_starts_with;
use crate::text::to_lowercase;
use vstd::prelude::*;
use vstd::string::StringExecFns;

verus! {

/// A device node with what the caller has found out about it.
#[derive(Debug, Clone)]
pub struct InputDevice {
    /// The path of the node.
    pub path: String,
    /// The file name of the node.
    pub name: String,
    /// Whether the node can be opened.
    pub accessible: bool,
    /// Whether the device behind it has the keys of a keyboard.
    pub keyboard: bool,
}

/// A name under `by-id` that may be a keyboard's: it contains `kbd` or
/// `keyboard`, and `event`.
pub open spec fn is_keyboard_name(name: Seq<char>) -> bool {
    (is_substring("kbd"@, name) || is_substring("keyboard"@, name)) && is_substring("event"@, name)
}

/// A name under `by-id` that gives a mouse away.
pub open spec fn is_mouse_name(name: Seq<char>) -> bool {
    is_substring("DeathAdder"@, name) || is_substring("mouse"@, name) || is_substring(
        "Mouse"@,
        name,
    )
}

/// The rank of a name under `by-id`: highest for the nodes that end in
/// `event-kbd`, then those that name a keyboard, then the rest.
pub open spec fn name_priority(name: Seq<char>) -> u32 {
    if has_suffix(name, "event-kbd"@) {
        100
    } else if is_substring("Keyboard"@, name) || is_substring("keyboard"@, name) {
        50
    } else {
        10
    }
}

/// A node under `by-id` that is taken for a keyboard.
pub open spec fn qualifies_by_id(d: InputDevice) -> bool {
    is_keyboard_name(d.name@) && d.accessible && !is_mouse_name(d.name@) && d.keyboard
}

/// `best` is the choice among the nodes under `by-id`: it qualifies, no
/// qualifying node ranks higher, and none that ranks as high comes before it.
pub open spec fn is_best_by_id(devices: Seq<InputDevice>, best: int) -> bool {
    &&& 0 <= best < devices.len()
    &&& qualifies_by_id(devices[best])
    &&& forall|i: int|
        0 <= i < devices.len() && qualifies_by_id(#[trigger] devices[i]) ==> name_priority(
            devices[i].name@,
        ) <= name_priority(devices[best].name@)
    &&& forall|i: int|
        0 <= i < best && qualifies_by_id(#[trigger] devices[i]) ==> name_priority(devices[i].name@)
            < name_priority(devices[best].name@)
}

/// An event node that is taken for a keyboard.
pub open spec fn qualifies_as_event_device(d: InputDevice) -> bool {
    has_prefix(d.name@, "event"@) && d.keyboard && d.accessible
}

/// `first` is the first event node that is taken for a keyboard.
pub open spec fn is_first_event_device(devices: Seq<InputDevice>, first: int) -> bool {
    &&& 0 <= first < devices.len()
    &&& qualifies_as_event_device(devices[first])
    &&& forall|i: int| 0 <= i < first ==> !qualifies_as_event_device(#[trigger] devices[i])
}

/// A device is a keyboard by its name and its keys: the name, in lower case,
/// does not give a pointing device away, and the keys include A, space and
/// enter and are more than twenty.
pub open spec fn keyboard_like(
    device_name: Seq<char>,
    has_key_a: bool,
    has_key_space: bool,
    has_key_enter: bool,
    key_count: usize,
) -> bool {
    let name = lowercase(device_name);
    &&& !is_substring("mouse"@, name)
    &&& !is_substring("deathadder"@, name)
    &&& !is_substring("touchpad"@, name)
    &&& !is_substring("trackpoint"@, name)
    &&& has_key_a
    &&& has_key_space
    &&& has_key_enter
    &&& key_count > 20
}

/// The nodes under `by-id` as a sequence, where the directory was listed.
pub open spec fn listed_by_id(by_id: Option<&[InputDevice]>) -> Option<Seq<InputDevice>> {
    match by_id {
        Some(listed) => Some(listed@),
        None => None,
    }
}

/// Some node under `by-id` is taken for a keyboard.
pub open spec fn some_qualifies_by_id(by_id: Option<Seq<InputDevice>>) -> bool {
    by_id is Some && exists|i: int|
        0 <= i < by_id->0.len() && qualifies_by_id(#[trigger] by_id->0[i])
}

/// The search finds a device: a node under `by-id` or an event node is taken
/// for a keyboard.
pub open spec fn has_auto_choice(by_id: Option<Seq<InputDevice>>, events: Seq<InputDevice>) -> bool {
    some_qualifies_by_id(by_id) || exists|i: int|
        0 <= i < events.len() && qualifies_as_event_device(#[trigger] events[i])
}

/// `path` is what the search settles on: the path of the best node under
/// `by-id` where one qualifies, else that of the first event node that does.
pub open spec fn is_auto_choice(
    by_id: Option<Seq<InputDevice>>,
    events: Seq<InputDevice>,
    path: String,
) -> bool {
    if some_qualifies_by_id(by_id) {
        exists|best: int| is_best_by_id(by_id->0, best) && path == by_id->0[best].path
    } else {
        exists|first: int| is_first_event_device(events, first) && path == events[first].path
    }
}

pub open spec fn explicit_not_found_text(path: Seq<char>) -> Seq<char> {
    "Указанное устройство не найдено: "@ + path
}

pub open spec fn by_id_not_found_text() -> Seq<char> {
    "Клавиатурное устройство не найдено в by-id"@
}

pub open spec fn event_not_found_text() -> Seq<char> {
    "Не найдено доступное клавиатурное устройство среди event устройств"@
}

pub open spec fn auto_not_found_text() -> Seq<char> {
    "Не удалось найти подходящее клавиатурное устройство. Убедитесь, что пользователь добавлен в группу 'input'"@
}

pub struct DeviceFinder;

impl DeviceFinder {
    /// Whether the configured path asks for a search.
    pub fn is_auto(device_path: &str) -> (r: bool)
        ensures
            r == (device_path@ == "auto"@),
    {
        str_eq(device_path, "auto")
    }

    /// The answer for a configured path that names a device: the path where
    /// the device exists, else the failure of the search.
    pub fn explicit_device(device_path: &str, exists: bool) -> (r: Result<String, AhkError>)
        ensures
            match r {
                Ok(path) => exists && path@ == device_path@,
                Err(e) => !exists && e@ == AhkErrorView::DeviceNotFound(
                    explicit_not_found_text(device_path@),
                ),
            },
    {
        if exists {
            Ok(String::from_str(device_path))
        } else {
            AhkError::device_not_found(concat_str("Указанное устройство не найдено: ", device_path))
        }
    }

    /// Whether a name under `by-id` may be a keyboard's.
    pub fn is_candidate_name(name: &str) -> (r: bool)
        ensures
            r == is_keyboard_name(name@),
    {
        (str_contains(name, "kbd") || str_contains(name, "keyboard")) && str_contains(name, "event")
    }

    /// Whether a name under `by-id` gives a mouse away.
    pub fn is_mouse(name: &str) -> (r: bool)
        ensures
            r == is_mouse_name(name@),
    {
        str_contains(name, "DeathAdder") || str_contains(name, "mouse") || str_contains(
            name,
            "Mouse",
        )
    }

    /// Whether a name is that of an event node.
    pub fn is_event_name(name: &str) -> (r: bool)
        ensures
            r == has_prefix(name@, "event"@),
    {
        str_starts_with(name, "event")
    }

    /// The rank of a name under `by-id`.
    pub fn priority(name: &str) -> (r: u32)
        ensures
            r == name_priority(name@),
    {
        if str_ends_with(name, "event-kbd") {
            100
        } else if str_contains(name, "Keyboard") || str_contains(name, "keyboard") {
            50
        } else {
            10
        }
    }

    /// Chooses among the nodes under `by-id`, given in the order of the
    /// listing.
    pub fn find_by_id(devices: &[InputDevice]) -> (r: Result<usize, AhkError>)
        ensures
            match r {
                Ok(best) => is_best_by_id(devices@, best as int),
                Err(e) => {
                    &&& forall|i: int|
                        0 <= i < devices@.len() ==> !qualifies_by_id(#[trigger] devices@[i])
                    &&& e@ == AhkErrorView::DeviceNotFound(by_id_not_found_text())
                },
            },
    {
        let mut best: Option<(usize, u32)> = None;
        let mut i: usize = 0;
        while i < devices.len()
            invariant
                i <= devices.len(),
                match best {
                    Some((at, rank)) => {
                        &&& at < i
                        &&& rank == name_priority(devices@[at as int].name@)
                        &&& qualifies_by_id(devices@[at as int])
                        &&& forall|j: int|
                            0 <= j < i && qualifies_by_id(#[trigger] devices@[j]) ==> name_priority(
                                devices@[j].name@,
                            ) <= rank
                        &&& forall|j: int|
                            0 <= j < at && qualifies_by_id(#[trigger] devices@[j])
                                ==> name_priority(devices@[j].name@) < rank
                    },
                    None => forall|j: int| 0 <= j < i ==> !qualifies_by_id(#[trigger] devices@[j]),
                },
            decreases devices.len() - i,
        {
            let device = &devices[i];
            let name = device.name.as_str();
            if Self::is_candidate_name(name) && device.accessible && !Self::is_mouse(name)
                && device.keyboard {
                let rank = Self::priority(name);
                match best {
                    Some((_, best_rank)) => {
                        if rank > best_rank {
                            best = Some((i, rank));
                        }
                    },
                    None => {
                        best = Some((i, rank));
                    },
                }
            }
            i += 1;
        }
        match best {
            Some((at, _)) => Ok(at),
            None => AhkError::device_not_found(
                String::from_str("Клавиатурное устройство не найдено в by-id"),
            ),
        }
    }

    /// Chooses among the event nodes, given in the order of their paths.
    pub fn find_by_event_devices(devices: &[InputDevice]) -> (r: Result<usize, AhkError>)
        ensures
            match r {
                Ok(first) => is_first_event_device(devices@, first as int),
                Err(e) => {
                    &&& forall|i: int|
                        0 <= i < devices@.len() ==> !qualifies_as_event_device(
                            #[trigger] devices@[i],
                        )
                    &&& e@ == AhkErrorView::DeviceNotFound(event_not_found_text())
                },
            },
    {
        let mut i: usize = 0;
        while i < devices.len()
            invariant
                i <= devices.len(),
                forall|j: int| 0 <= j < i ==> !qualifies_as_event_device(#[trigger] devices@[j]),
            decreases devices.len() - i,
        {
            let device = &devices[i];
            if Self::is_event_name(device.name.as_str()) && device.keyboard
                && device.accessible {
                return Ok(i);
            }
            i += 1;
        }
        AhkError::device_not_found(
            String::from_str("Не найдено доступное клавиатурное устройство среди event устройств"),
        )
    }

    /// The search: the choice among the nodes under `by-id` where there is
    /// one, else the choice among the event nodes, else the failure. The
    /// nodes under `by-id` are missing where that directory is.
    pub fn auto_find_keyboard(by_id: Option<&[InputDevice]>, events: &[InputDevice]) -> (r: Result<
        String,
        AhkError,
    >)
        ensures
            match r {
                Ok(path) => is_auto_choice(listed_by_id(by_id), events@, path),
                Err(e) => {
                    &&& !has_auto_choice(listed_by_id(by_id), events@)
                    &&& e@ == AhkErrorView::DeviceNotFound(auto_not_found_text())
                },
            },
    {
        match by_id {
            Some(listed) => {
                match Self::find_by_id(listed) {
                    Ok(best) => {
                        proof {
                            let nodes = listed_by_id(by_id)->0;
                            assert(nodes == listed@);
                            assert(qualifies_by_id(nodes[best as int]));
                        }
                        return Ok(listed[best].path.clone());
                    },
                    Err(_) => {},
                }
            },
            None => {},
        }
        match Self::find_by_event_devices(events) {
            Ok(first) => Ok(events[first].path.clone()),
            Err(_) => AhkError::device_not_found(
                String::from_str(
                    "Не удалось найти подходящее клавиатурное устройство. Убедитесь, что пользователь добавлен в группу 'input'",
                ),
            ),
        }
    }

    /// The keyboard device for a configured path, from what the caller has
    /// found out: whether the path exists, and the nodes that a search would
    /// look at. A path other than `auto` names the device itself; `auto`
    /// asks for the search.
    pub fn find_keyboard_device(
        device_path: &str,
        exists: bool,
        by_id: Option<&[InputDevice]>,
        events: &[InputDevice],
    ) -> (r: Result<String, AhkError>)
        ensures
            device_path@ != "auto"@ ==> match r {
                Ok(path) => exists && path@ == device_path@,
                Err(e) => !exists && e@ == AhkErrorView::DeviceNotFound(
                    explicit_not_found_text(device_path@),
                ),
            },
            device_path@ == "auto"@ ==> match r {
                Ok(path) => is_auto_choice(listed_by_id(by_id), events@, path),
                Err(e) => {
                    &&& !has_auto_choice(listed_by_id(by_id), events@)
                    &&& e@ == AhkErrorView::DeviceNotFound(auto_not_found_text())
                },
            },
    {
        if !Self::is_auto(device_path) {
            Self::explicit_device(device_path, exists)
        } else {
            Self::auto_find_keyboard(by_id, events)
        }
    }

    /// Whether a device is a keyboard by its name and its keys.
    pub fn is_keyboard_device(
        device_name: &str,
        has_key_a: bool,
        has_key_space: bool,
        has_key_enter: bool,
        key_count: usize,
    ) -> (r: bool)
        ensures
            r == keyboard_like(device_name@, has_key_a, has_key_space, has_key_enter, key_count),
    {
        let name = to_lowercase(device_name);
        if str_contains(name.as_str(), "mouse") || str_contains(name.as_str(), "deathadder")
            || str_contains(name.as_str(), "touchpad") || str_contains(name.as_str(), "trackpoint") {
            return false;
        }
        has_key_a && has_key_space && has_key_enter && key_count > 20
    }
}

} // verus!
