//! What the KDE window tool prints, read.

use crate::error::AhkError;
use crate::error::AhkErrorView;
use crate::events::WindowInfo;
use crate::text::concat_str;
use crate::text::trim;
use crate::text::trimmed;
use vstd::prelude::*;
use vstd::string::StringExecFns;

verus! {

/// The window that the tool reports with this output for the window name: the
/// trimmed output is the title, and the class is `KDE`. There is none where
/// the trimmed output is empty.
pub open spec fn kde_window(name_output: Seq<char>) -> Option<(Seq<char>, Seq<char>)> {
    if trimmed(name_output).len() == 0 {
        None
    } else {
        Some((trimmed(name_output), "KDE"@))
    }
}

/// The path of the runtime directory of the user with this identifier.
pub open spec fn runtime_dir_of(uid: Seq<char>) -> Seq<char> {
    "/run/user/"@ + uid
}

/// The address of the session bus of the user with this identifier.
pub open spec fn bus_address_of(uid: Seq<char>) -> Seq<char> {
    "unix:path="@ + runtime_dir_of(uid) + "/bus"@
}

pub struct KdotoolDetector;

impl KdotoolDetector {
    pub fn new() -> Self {
        Self
    }

    /// The window identifier in the output of the tool: the output, trimmed.
    pub fn window_id(id_output: &str) -> (r: String)
        ensures
            r@ == trimmed(id_output@),
    {
        trim(id_output)
    }

    /// The active window from what the tool printed for the window name.
    pub fn get_active_window(&self, name_output: &str) -> (r: Result<WindowInfo, AhkError>)
        ensures
            match r {
                Ok(w) => {
                    &&& kde_window(name_output@) == Some((w.title@, w.class@))
                    &&& w.pid is None
                    &&& w.geometry is None
                },
                Err(e) => {
                    &&& kde_window(name_output@) is None
                    &&& e@ == AhkErrorView::Internal("kdotool вернул пустое название"@)
                },
            },
    {
        let title = trim(name_output);
        if title.as_str().is_empty() {
            return Err(AhkError::Internal(String::from_str("kdotool вернул пустое название")));
        }
        Ok(WindowInfo::new(title).with_class(String::from_str("KDE")))
    }

    /// The variables that let the tool reach the session of the user who
    /// called `sudo`, from that user's name and what `id -u` printed for it:
    /// the address of the session bus, the runtime directory, and the user.
    pub fn session_environment(sudo_user: &str, uid_output: &str) -> (r: Vec<(String, String)>)
        ensures
            r@.len() == 3,
            r@[0].0@ == "DBUS_SESSION_BUS_ADDRESS"@,
            r@[0].1@ == bus_address_of(trimmed(uid_output@)),
            r@[1].0@ == "XDG_RUNTIME_DIR"@,
            r@[1].1@ == runtime_dir_of(trimmed(uid_output@)),
            r@[2].0@ == "USER"@,
            r@[2].1@ == sudo_user@,
    {
        let uid = trim(uid_output);
        let runtime_dir = concat_str("/run/user/", uid.as_str());
        let mut address = concat_str("unix:path=", runtime_dir.as_str());
        address.append("/bus");
        let mut vars: Vec<(String, String)> = Vec::new();
        vars.push((String::from_str("DBUS_SESSION_BUS_ADDRESS"), address));
        vars.push((String::from_str("XDG_RUNTIME_DIR"), runtime_dir));
        vars.push((String::from_str("USER"), String::from_str(sudo_user)));
        vars
    }
}

} // verus!
