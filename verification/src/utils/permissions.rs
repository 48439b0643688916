//! Advice on the rights that the daemon needs.

use crate::error::AhkError;
use crate::error::AhkErrorView;
use crate::text::concat_str;
use vstd::prelude::*;
use vstd::string::StringExecFns;

verus! {

/// The lines of the advice: shell commands with their comments.
pub open spec fn setup_command_lines() -> Seq<Seq<char>> {
    seq![
        "# Добавить пользователя в необходимые группы:"@,
        "sudo usermod -a -G input,uinput $USER"@,
        ""@,
        "# Загрузить модуль uinput:"@,
        "sudo modprobe uinput"@,
        ""@,
        "# Автоматическая загрузка модуля при загрузке системы:"@,
        "echo 'uinput' | sudo tee /etc/modules-load.d/uinput.conf"@,
        ""@,
        "# После выполнения команд перезайдите в систему"@,
    ]
}

/// The commands that give a user access to the input devices and to the
/// virtual keyboard.
pub fn get_setup_commands() -> (r: Vec<String>)
    ensures
        r.deep_view() == setup_command_lines(),
{
    let mut lines: Vec<String> = Vec::new();
    lines.push(String::from_str("# Добавить пользователя в необходимые группы:"));
    lines.push(String::from_str("sudo usermod -a -G input,uinput $USER"));
    lines.push(String::from_str(""));
    lines.push(String::from_str("# Загрузить модуль uinput:"));
    lines.push(String::from_str("sudo modprobe uinput"));
    lines.push(String::from_str(""));
    lines.push(String::from_str("# Автоматическая загрузка модуля при загрузке системы:"));
    lines.push(String::from_str("echo 'uinput' | sudo tee /etc/modules-load.d/uinput.conf"));
    lines.push(String::from_str(""));
    lines.push(String::from_str("# После выполнения команд перезайдите в систему"));
    assert(lines.deep_view() =~= setup_command_lines());
    lines
}

/// Whether the mode bits of the virtual keyboard's device node let anyone but
/// the owner in: the group or the others may read or write.
pub open spec fn mode_grants_access(mode: u32) -> bool {
    mode & 0o006 != 0 || mode & 0o060 != 0
}

/// Whether the mode bits of a device node give the group or the others read
/// or write access.
pub fn uinput_mode_allows(mode: u32) -> (r: bool)
    ensures
        r == mode_grants_access(mode),
{
    !(mode & 0o006 == 0 && mode & 0o060 == 0)
}

/// What the caller has found out about the directory of the input devices.
#[derive(Debug, Clone)]
pub enum InputDirAccess {
    /// The directory does not exist.
    Missing,
    /// The directory cannot be listed; the reason is given.
    Unreadable(String),
    /// The directory can be listed.
    Readable,
}

/// What the caller has found out about the device node of the virtual
/// keyboard.
#[derive(Debug, Clone)]
pub enum UinputAccess {
    /// The node does not exist; the kernel module may be loaded later.
    Missing,
    /// The node exists but its mode cannot be read; the reason is given.
    Unknown(String),
    /// The node exists and has these mode bits.
    Mode(u32),
}

pub open spec fn input_dir_missing_text() -> Seq<char> {
    "Директория /dev/input не существует"@
}

pub open spec fn input_dir_unreadable_text(reason: Seq<char>) -> Seq<char> {
    "Нет доступа к /dev/input: "@ + reason + ". Добавьте пользователя в группу 'input'"@
}

pub open spec fn uinput_denied_text() -> Seq<char> {
    "Нет прав доступа к /dev/uinput. Добавьте пользователя в группу 'uinput' или 'input'"@
}

pub open spec fn uinput_unknown_text(reason: Seq<char>) -> Seq<char> {
    "Не удалось проверить права доступа к /dev/uinput: "@ + reason
}

/// What stands in the way of the daemon, if anything: first the directory
/// of the input devices, which must exist and be readable, then the node of
/// the virtual keyboard, which may be missing but must not be closed to the
/// group and to the others.
pub open spec fn permission_fault(input_dir: InputDirAccess, uinput: UinputAccess) -> Option<
    Seq<char>,
> {
    match input_dir {
        InputDirAccess::Missing => Some(input_dir_missing_text()),
        InputDirAccess::Unreadable(reason) => Some(input_dir_unreadable_text(reason@)),
        InputDirAccess::Readable => match uinput {
            UinputAccess::Missing => None,
            UinputAccess::Unknown(reason) => Some(uinput_unknown_text(reason@)),
            UinputAccess::Mode(mode) => if mode_grants_access(mode) {
                None
            } else {
                Some(uinput_denied_text())
            },
        },
    }
}

/// Checks the rights that the daemon needs, from what the caller has found
/// out about the two places it must reach.
pub fn check_permissions(input_dir: &InputDirAccess, uinput: &UinputAccess) -> (r: Result<
    (),
    AhkError,
>)
    ensures
        match r {
            Ok(_) => permission_fault(*input_dir, *uinput) is None,
            Err(e) => permission_fault(*input_dir, *uinput) matches Some(text) && e@
                == AhkErrorView::Permission(text),
        },
{
    match input_dir {
        InputDirAccess::Missing => {
            return Err(
                AhkError::Permission(String::from_str("Директория /dev/input не существует")),
            );
        },
        InputDirAccess::Unreadable(reason) => {
            let mut text = concat_str("Нет доступа к /dev/input: ", reason.as_str());
            text.append(". Добавьте пользователя в группу 'input'");
            return Err(AhkError::Permission(text));
        },
        InputDirAccess::Readable => {},
    }
    match uinput {
        UinputAccess::Missing => Ok(()),
        UinputAccess::Unknown(reason) => Err(
            AhkError::Permission(
                concat_str("Не удалось проверить права доступа к /dev/uinput: ", reason.as_str()),
            ),
        ),
        UinputAccess::Mode(mode) => {
            if uinput_mode_allows(*mode) {
                Ok(())
            } else {
                Err(
                    AhkError::Permission(
                        String::from_str(
                            "Нет прав доступа к /dev/uinput. Добавьте пользователя в группу 'uinput' или 'input'",
                        ),
                    ),
                )
            }
        },
    }
}

} // verus!
