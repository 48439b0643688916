use ahk_rust::error::AhkError;
use ahk_rust::events::WindowInfo;
use ahk_rust::services::window_detector::kdotool::KdotoolDetector;
use ahk_rust::services::window_detector::sway::SwayDetector;
use ahk_rust::services::window_detector::wmctrl::WmctrlDetector;
use ahk_rust::services::window_detector::xdotool::XdotoolDetector;

fn titled(title: &str, class: &str) -> WindowInfo {
    WindowInfo::new(title.to_string()).with_class(class.to_string())
}

#[test]
fn kdotool_output() {
    let kdotool = KdotoolDetector::new();
    assert_eq!(KdotoolDetector::window_id("{1a2b-3c}\n"), "{1a2b-3c}");
    assert_eq!(kdotool.get_active_window("  My Editor \n"), Ok(titled("My Editor", "KDE")));
    assert_eq!(
        kdotool.get_active_window(" \n"),
        Err(AhkError::Internal("kdotool вернул пустое название".to_string()))
    );
    assert_eq!(
        kdotool.get_active_window(""),
        Err(AhkError::Internal("kdotool вернул пустое название".to_string()))
    );
}

#[test]
fn kdotool_session_environment() {
    let vars = KdotoolDetector::session_environment("alice", "1000\n");
    assert_eq!(
        vars,
        vec![
            ("DBUS_SESSION_BUS_ADDRESS".to_string(), "unix:path=/run/user/1000/bus".to_string()),
            ("XDG_RUNTIME_DIR".to_string(), "/run/user/1000".to_string()),
            ("USER".to_string(), "alice".to_string()),
        ]
    );
}

#[test]
fn xdotool_output() {
    let xdotool = XdotoolDetector::new();
    assert_eq!(
        xdotool.get_active_window("Terminal\n", Some("konsole\n")),
        titled("Terminal", "konsole")
    );
    assert_eq!(xdotool.get_active_window("Terminal\n", None), titled("Terminal", "Unknown"));
    assert_eq!(xdotool.get_active_window("\n", Some("")), titled("", ""));
}

#[test]
fn sway_tree() {
    let sway = SwayDetector::new();
    let tree = r#"{"id":1,"name":"root","nodes":[{"id":5,"name":"Editor - main.rs","focused":true},{"id":6,"name":"Other","focused":false}]}"#;
    assert_eq!(sway.get_active_window(tree), Ok(titled("Editor - main.rs", "")));

    let second = r#"{"name":"a","focused":false},{"name":"b","x":1,"focused":true},{"name":"c","focused":true}"#;
    assert_eq!(sway.get_active_window(second), Ok(titled("b", "")));

    let empty_name = r#"{"name":"","focused":true}"#;
    assert_eq!(sway.get_active_window(empty_name), Ok(titled("", "")));

    let not_found = Err(AhkError::Internal("Активное окно в Sway не найдено".to_string()));
    assert_eq!(sway.get_active_window(r#"{"name":"a","focused":false}"#), not_found);
    assert_eq!(sway.get_active_window(r#"{"focused":true,"name":"a"}"#), not_found);
    assert_eq!(sway.get_active_window(r#"{"name":"a"focused":true}"#), not_found);
    assert_eq!(sway.get_active_window(""), not_found);
}

#[test]
fn wmctrl_list() {
    let wmctrl = WmctrlDetector::new();
    let list = "0x01 0 host First window\n0x02 * host   The  active   one \n0x03 * host Later\n";
    assert_eq!(wmctrl.get_active_window(list), Ok(titled("The active one", "")));

    let star_in_title = "0x01 0 host Notes *\n";
    assert_eq!(wmctrl.get_active_window(star_in_title), Ok(titled("Notes *", "")));

    let not_found = Err(AhkError::Internal("Активное окно не найдено".to_string()));
    assert_eq!(wmctrl.get_active_window("0x01 0 host First window\n"), not_found);
    assert_eq!(wmctrl.get_active_window("0x02 * host\n"), not_found);
    assert_eq!(wmctrl.get_active_window("* * *\n"), not_found);
    assert_eq!(wmctrl.get_active_window(""), not_found);
    assert_eq!(wmctrl.get_active_window("a b\n*\nc d e f"), not_found);
    assert_eq!(wmctrl.get_active_window("a b\r\n* d e f\r\n"), Ok(titled("f", "")));
}
