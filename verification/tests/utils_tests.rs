use ahk_rust::error::AhkError;
use ahk_rust::utils::device_finder::InputDevice;
use ahk_rust::utils::permissions::{
    check_permissions, get_setup_commands, uinput_mode_allows, InputDirAccess, UinputAccess,
};
use ahk_rust::utils::DeviceFinder;

fn device(name: &str, accessible: bool, keyboard: bool) -> InputDevice {
    InputDevice {
        path: format!("/dev/input/by-id/{}", name),
        name: name.to_string(),
        accessible,
        keyboard,
    }
}

fn not_found(text: &str) -> AhkError {
    AhkError::DeviceNotFound(text.to_string())
}

#[test]
fn test_setup_commands() {
    let commands = get_setup_commands();
    assert!(!commands.is_empty());
    assert!(commands.iter().any(|cmd| cmd.contains("usermod")));
    assert!(commands.iter().any(|cmd| cmd.contains("modprobe")));
}

#[test]
fn test_device_finder_creation() {
    let _finder = DeviceFinder;
}

#[test]
fn the_setup_commands_line_by_line() {
    assert_eq!(
        get_setup_commands(),
        vec![
            "# Добавить пользователя в необходимые группы:",
            "sudo usermod -a -G input,uinput $USER",
            "",
            "# Загрузить модуль uinput:",
            "sudo modprobe uinput",
            "",
            "# Автоматическая загрузка модуля при загрузке системы:",
            "echo 'uinput' | sudo tee /etc/modules-load.d/uinput.conf",
            "",
            "# После выполнения команд перезайдите в систему",
        ]
    );
}

#[test]
fn mode_bits_of_the_uinput_node() {
    assert!(uinput_mode_allows(0o660));
    assert!(uinput_mode_allows(0o666));
    assert!(uinput_mode_allows(0o604));
    assert!(uinput_mode_allows(0o620));
    assert!(!uinput_mode_allows(0o600));
    assert!(!uinput_mode_allows(0o711));
    assert!(!uinput_mode_allows(0));
}

#[test]
fn an_explicit_device_must_exist() {
    assert!(DeviceFinder::is_auto("auto"));
    assert!(!DeviceFinder::is_auto("Auto"));
    assert!(!DeviceFinder::is_auto("/dev/input/event3"));
    assert_eq!(
        DeviceFinder::explicit_device("/dev/input/event3", true),
        Ok("/dev/input/event3".to_string())
    );
    assert_eq!(
        DeviceFinder::explicit_device("/non/existent/path", false),
        Err(not_found("Указанное устройство не найдено: /non/existent/path"))
    );
}

#[test]
fn names_under_by_id() {
    assert!(DeviceFinder::is_candidate_name("usb-Logitech_K120-event-kbd"));
    assert!(DeviceFinder::is_candidate_name("usb-Some_keyboard-event-if01"));
    assert!(!DeviceFinder::is_candidate_name("usb-Logitech_K120-kbd"));
    assert!(!DeviceFinder::is_candidate_name("usb-Some_Keyboard-event-if01"));
    assert!(!DeviceFinder::is_candidate_name("usb-Logitech-event-mouse"));
    assert!(DeviceFinder::is_mouse("usb-Razer_DeathAdder-event-kbd"));
    assert!(DeviceFinder::is_mouse("usb-Some_Mouse-event-kbd"));
    assert!(DeviceFinder::is_mouse("usb-some-mouse-kbd"));
    assert!(!DeviceFinder::is_mouse("usb-Logitech_K120-event-kbd"));
    assert_eq!(DeviceFinder::priority("usb-Logitech_K120-event-kbd"), 100);
    assert_eq!(DeviceFinder::priority("usb-Some_Keyboard-event-kbd"), 100);
    assert_eq!(DeviceFinder::priority("usb-Some_Keyboard-event-if01"), 50);
    assert_eq!(DeviceFinder::priority("usb-some-keyboard-event-kbd-x"), 50);
    assert_eq!(DeviceFinder::priority("usb-x-kbd-event"), 10);
}

#[test]
fn the_best_node_under_by_id() {
    let devices = vec![
        device("usb-A-kbd-event-if01", true, true),
        device("usb-B_keyboard-event-if01", true, true),
        device("usb-C-event-kbd", false, true),
        device("usb-D_DeathAdder-event-kbd", true, true),
        device("usb-E-event-kbd", true, false),
        device("usb-F_keyboard-event-if02", true, true),
        device("usb-G-event-mouse", true, true),
    ];
    assert_eq!(DeviceFinder::find_by_id(&devices), Ok(1));
    let mut with_top = devices.clone();
    with_top.push(device("usb-H-event-kbd", true, true));
    with_top.push(device("usb-I-event-kbd", true, true));
    assert_eq!(DeviceFinder::find_by_id(&with_top), Ok(7));
    assert_eq!(DeviceFinder::find_by_id(&devices[..1]), Ok(0));
    let missing = Err(not_found("Клавиатурное устройство не найдено в by-id"));
    assert_eq!(DeviceFinder::find_by_id(&devices[2..5]), missing);
    assert_eq!(DeviceFinder::find_by_id(&[]), missing);
}

#[test]
fn the_first_event_node() {
    let devices = vec![
        device("event0", true, false),
        device("event1", false, true),
        device("mouse0", true, true),
        device("event2", true, true),
        device("event3", true, true),
    ];
    assert_eq!(DeviceFinder::find_by_event_devices(&devices), Ok(3));
    let missing =
        Err(not_found("Не найдено доступное клавиатурное устройство среди event устройств"));
    assert_eq!(DeviceFinder::find_by_event_devices(&devices[..3]), missing);
    assert_eq!(DeviceFinder::find_by_event_devices(&[]), missing);
}

#[test]
fn the_search_prefers_by_id() {
    let by_id = vec![device("usb-A-event-kbd", true, true)];
    let none_by_id = vec![device("usb-A-event-kbd", true, false)];
    let events = vec![device("event5", true, true)];
    assert_eq!(
        DeviceFinder::auto_find_keyboard(Some(&by_id), &events),
        Ok("/dev/input/by-id/usb-A-event-kbd".to_string())
    );
    assert_eq!(
        DeviceFinder::auto_find_keyboard(Some(&none_by_id), &events),
        Ok("/dev/input/by-id/event5".to_string())
    );
    assert_eq!(
        DeviceFinder::auto_find_keyboard(None, &events),
        Ok("/dev/input/by-id/event5".to_string())
    );
    assert_eq!(
        DeviceFinder::auto_find_keyboard(Some(&none_by_id), &[]),
        Err(not_found(
            "Не удалось найти подходящее клавиатурное устройство. Убедитесь, что пользователь добавлен в группу 'input'"
        ))
    );
    assert!(DeviceFinder::auto_find_keyboard(None, &[]).is_err());
}

#[test]
fn a_keyboard_by_name_and_keys() {
    assert!(DeviceFinder::is_keyboard_device("Logitech K120", true, true, true, 21));
    assert!(!DeviceFinder::is_keyboard_device("Logitech K120", true, true, true, 20));
    assert!(!DeviceFinder::is_keyboard_device("Logitech K120", false, true, true, 100));
    assert!(!DeviceFinder::is_keyboard_device("Logitech K120", true, false, true, 100));
    assert!(!DeviceFinder::is_keyboard_device("Logitech K120", true, true, false, 100));
    assert!(!DeviceFinder::is_keyboard_device("Gaming MOUSE", true, true, true, 100));
    assert!(!DeviceFinder::is_keyboard_device("Razer DeathAdder", true, true, true, 100));
    assert!(!DeviceFinder::is_keyboard_device("SynPS/2 TouchPad", true, true, true, 100));
    assert!(!DeviceFinder::is_keyboard_device("TPPS/2 TrackPoint", true, true, true, 100));
    assert!(DeviceFinder::is_keyboard_device("", true, true, true, usize::MAX));
}

#[test]
fn names_of_event_nodes() {
    assert!(DeviceFinder::is_event_name("event0"));
    assert!(DeviceFinder::is_event_name("event"));
    assert!(!DeviceFinder::is_event_name("mouse0"));
    assert!(!DeviceFinder::is_event_name("usb-event"));
    assert!(!DeviceFinder::is_event_name(""));
}

#[test]
fn test_find_keyboard_device_with_specific_path() {
    let result = DeviceFinder::find_keyboard_device("/non/existent/path", false, None, &[]);
    assert!(result.is_err());
}

#[test]
fn find_keyboard_device_searches_only_when_asked() {
    let events = vec![device("event5", true, true)];
    assert_eq!(
        DeviceFinder::find_keyboard_device("/dev/input/event9", true, None, &events),
        Ok("/dev/input/event9".to_string())
    );
    assert_eq!(
        DeviceFinder::find_keyboard_device("/dev/input/event9", false, None, &events),
        Err(not_found("Указанное устройство не найдено: /dev/input/event9"))
    );
    assert_eq!(
        DeviceFinder::find_keyboard_device("auto", false, None, &events),
        Ok("/dev/input/by-id/event5".to_string())
    );
    assert!(DeviceFinder::find_keyboard_device("auto", true, Some(&[]), &[]).is_err());
}

#[test]
fn the_rights_are_checked_in_order() {
    let denied = |text: &str| Err(AhkError::Permission(text.to_string()));
    assert_eq!(check_permissions(&InputDirAccess::Readable, &UinputAccess::Missing), Ok(()));
    assert_eq!(check_permissions(&InputDirAccess::Readable, &UinputAccess::Mode(0o660)), Ok(()));
    assert_eq!(
        check_permissions(&InputDirAccess::Missing, &UinputAccess::Mode(0o600)),
        denied("Директория /dev/input не существует")
    );
    assert_eq!(
        check_permissions(
            &InputDirAccess::Unreadable("Permission denied".to_string()),
            &UinputAccess::Unknown("x".to_string())
        ),
        denied("Нет доступа к /dev/input: Permission denied. Добавьте пользователя в группу 'input'")
    );
    assert_eq!(
        check_permissions(&InputDirAccess::Readable, &UinputAccess::Mode(0o600)),
        denied("Нет прав доступа к /dev/uinput. Добавьте пользователя в группу 'uinput' или 'input'")
    );
    assert_eq!(
        check_permissions(&InputDirAccess::Readable, &UinputAccess::Unknown("gone".to_string())),
        denied("Не удалось проверить права доступа к /dev/uinput: gone")
    );
}
