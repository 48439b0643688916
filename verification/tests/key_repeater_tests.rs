use ahk_rust::config::{Config, KeyMapping};
use ahk_rust::events::{KeyCode, KeyEvent, KeyState, Modifiers, WindowEvent, WindowInfo};
use ahk_rust::services::key_repeater::{passthrough_event, CacheKey, RepeaterCommand};
use ahk_rust::services::repeater_task::{RepeaterTask, TaskInput, TaskOutput, TaskPhase};
use ahk_rust::services::KeyRepeater;

fn event(code: u16, state: KeyState, modifiers: Modifiers) -> KeyEvent {
    KeyEvent::new(KeyCode::new(code), state, modifiers, 0)
}

fn config_for_j(patterns: &[&str], toggle: Option<&str>) -> Config {
    let mut config = Config::default();
    config.repeat.repeat_toggle_key = toggle.map(|key| key.to_string());
    config.mappings = vec![KeyMapping { key: "j".to_string(), modifiers: vec![] }];
    config.window.window_title_patterns = patterns.iter().map(|p| p.to_string()).collect();
    config.build_optimization_indexes();
    config
}

/// What a command is, without the time of its event.
fn plain(command: &RepeaterCommand) -> (&'static str, u16, u8, u64) {
    match command {
        RepeaterCommand::Emit(e) => match e.state {
            KeyState::Pressed => ("press", e.key_code.value(), e.modifiers.bits(), 0),
            KeyState::Released => ("release", e.key_code.value(), e.modifiers.bits(), 0),
            KeyState::Repeat => ("repeat", e.key_code.value(), e.modifiers.bits(), 0),
        },
        RepeaterCommand::StartRepeat { key_hash, key_code, modifiers } => {
            ("start", key_code.value(), modifiers.bits(), *key_hash)
        }
        RepeaterCommand::StopRepeat { key_hash } => ("stop", 0, 0, *key_hash),
    }
}

fn plain_all(commands: &[RepeaterCommand]) -> Vec<(&'static str, u16, u8, u64)> {
    commands.iter().map(plain).collect()
}

#[test]
fn test_stop_all_repeaters_gracefully_aborts_tasks() {
    let config = Config::default();
    let mut key_repeater = KeyRepeater::new(config, true);

    let key_event = event(42, KeyState::Pressed, Modifiers::new());

    let start = key_repeater.start_repeater(&key_event);

    assert_eq!(key_repeater.active_count(), 1);

    let key_hash = key_event.key_only_hash();
    assert_eq!(plain(&start), ("start", 42, 0, key_hash));
    let mut task = RepeaterTask::new(KeyCode::new(42), Modifiers::new(), 50, true);
    task.step(TaskInput::Tick);
    let task_finished = task.is_finished();

    assert!(!task_finished, "Задача должна быть активной перед остановкой");

    let commands = key_repeater.stop_all_repeaters_gracefully();

    assert_eq!(key_repeater.active_count(), 0);
    assert_eq!(plain_all(&commands), vec![("release", 42, 0, 0), ("stop", 0, 0, key_hash)]);

    assert!(matches!(task.step(TaskInput::Cancelled), TaskOutput::Finish));
    assert!(task.is_finished());
}

#[test]
fn test_stop_all_repeaters_gracefully_with_empty_map() {
    let config = Config::default();
    let mut key_repeater = KeyRepeater::new(config, true);

    let commands = key_repeater.stop_all_repeaters_gracefully();

    assert_eq!(key_repeater.active_count(), 0);
    assert!(commands.is_empty());
}

#[test]
fn test_toggle_functionality() {
    let config = config_for_j(&[], Some("f12"));

    let mut repeater = KeyRepeater::new(config, true);

    assert!(repeater.is_enabled());

    let f12_press = event(88, KeyState::Pressed, Modifiers::new());

    repeater.handle_key_event(&f12_press);
    assert!(!repeater.is_enabled());

    repeater.handle_key_event(&f12_press);
    assert!(repeater.is_enabled());

    let j_press = event(36, KeyState::Pressed, Modifiers::new());

    let commands = repeater.handle_key_event(&j_press);
    let j_hash = j_press.key_only_hash();
    assert_eq!(plain_all(&commands), vec![("press", 36, 0, 0), ("start", 36, 0, j_hash)]);
    assert_eq!(repeater.active_count(), 1);

    let commands = repeater.handle_key_event(&f12_press);
    assert!(!repeater.is_enabled());
    assert_eq!(
        plain_all(&commands),
        vec![("release", 36, 0, 0), ("stop", 0, 0, j_hash), ("press", 88, 0, 0)]
    );
    assert_eq!(repeater.active_count(), 0);

    let commands = repeater.handle_key_event(&j_press);
    assert_eq!(plain_all(&commands), vec![("press", 36, 0, 0)]);
    assert_eq!(repeater.active_count(), 0);
}

#[test]
fn test_modifier_race_condition_fixed() {
    let config = Config::default();
    let mut key_repeater = KeyRepeater::new(config, true);

    let press_event = event(42, KeyState::Pressed, Modifiers::new().with_ctrl(true));

    let release_event = event(42, KeyState::Released, Modifiers::new());

    key_repeater.start_repeater(&press_event);
    assert_eq!(key_repeater.active_count(), 1);

    let press_key_hash = press_event.key_only_hash();
    let release_key_hash = release_event.key_only_hash();

    assert_eq!(press_key_hash, release_key_hash, "key_only_hash одинаковый - исправление работает!");

    let press_combination_hash = press_event.combination_hash();
    let release_combination_hash = release_event.combination_hash();
    assert_ne!(
        press_combination_hash, release_combination_hash,
        "combination_hash разный - показывает старую проблему"
    );

    let commands = key_repeater.handle_key_release(&release_event);
    assert_eq!(plain_all(&commands), vec![("stop", 0, 0, press_key_hash), ("release", 42, 0, 0)]);

    assert_eq!(key_repeater.active_count(), 0, "Повторитель остановился - исправление работает!");
}

#[test]
fn test_decision_cache_invalidation_on_title_change() {
    let cfg = config_for_j(&["nvim"], None);
    let mut repeater = KeyRepeater::new(cfg, true);

    repeater.update_title("browser");
    let res1 = repeater.should_repeat_cached("j", &[]);
    assert_eq!(res1, false);

    repeater.update_title("NVIM - file");
    let res2 = repeater.should_repeat_cached("j", &[]);
    assert_eq!(res2, true);
}

#[test]
fn a_cached_decision_is_returned_again() {
    let mut repeater = KeyRepeater::new(config_for_j(&["nvim"], None), false);
    repeater.update_title("nvim");
    assert!(repeater.should_repeat_cached("j", &[]));
    assert!(repeater.should_repeat_cached("j", &[]));
    assert!(!repeater.should_repeat_cached("k", &[]));
    assert!(!repeater.should_repeat_cached("k", &[]));
    assert!(!repeater.should_repeat_cached("j", &["ctrl".to_string()]));
    repeater.update_title("browser");
    assert!(!repeater.should_repeat_cached("j", &[]));
    repeater.update_title("nvim");
    assert!(repeater.should_repeat_cached("j", &[]));
}

#[test]
fn a_new_scheduler_is_switched_on_and_idle() {
    let repeater = KeyRepeater::new(config_for_j(&[], None), true);
    assert!(repeater.is_enabled());
    assert!(repeater.dry_run());
    assert_eq!(repeater.active_count(), 0);
    assert!(!repeater.is_repeating(KeyCode::new(36)));
    assert_eq!(repeater.config().mappings().len(), 1);
    assert!(!KeyRepeater::new(Config::default(), false).dry_run());
}

#[test]
fn the_scheduler_builds_the_indexes_of_its_configuration() {
    let mut config = Config::default();
    config.mappings = vec![KeyMapping { key: "j".to_string(), modifiers: vec![] }];
    let mut repeater = KeyRepeater::new(config, true);
    let commands = repeater.handle_key_event(&event(36, KeyState::Pressed, Modifiers::new()));
    assert_eq!(commands.len(), 2);
    assert!(repeater.is_repeating(KeyCode::new(36)));
}

#[test]
fn two_presses_leave_one_task() {
    let mut repeater = KeyRepeater::new(config_for_j(&[], None), true);
    let press = event(36, KeyState::Pressed, Modifiers::new());
    let hash = press.key_only_hash();
    let first = repeater.handle_key_event(&press);
    assert_eq!(plain_all(&first), vec![("press", 36, 0, 0), ("start", 36, 0, hash)]);
    let second = repeater.handle_key_event(&press);
    assert_eq!(plain_all(&second), vec![("press", 36, 0, 0)]);
    assert_eq!(repeater.active_count(), 1);
    assert!(repeater.is_repeating(KeyCode::new(36)));
}

#[test]
fn a_release_without_the_modifier_of_the_press_ends_the_task() {
    let mut config = Config::default();
    config.mappings = vec![KeyMapping { key: "j".to_string(), modifiers: vec!["ctrl".to_string()] }];
    let mut repeater = KeyRepeater::new(config, true);
    let press = event(36, KeyState::Pressed, Modifiers::new().with_ctrl(true));
    let release = event(36, KeyState::Released, Modifiers::new());
    let hash = press.key_only_hash();
    assert_eq!(
        plain_all(&repeater.handle_key_event(&press)),
        vec![("press", 36, 1, 0), ("start", 36, 1, hash)]
    );
    assert_eq!(
        plain_all(&repeater.handle_key_event(&release)),
        vec![("stop", 0, 0, hash), ("release", 36, 0, 0)]
    );
    assert_eq!(repeater.active_count(), 0);
}

#[test]
fn a_release_of_an_idle_repeatable_key_is_passed_on() {
    let mut repeater = KeyRepeater::new(config_for_j(&[], None), true);
    let release = event(36, KeyState::Released, Modifiers::new());
    assert_eq!(plain_all(&repeater.handle_key_event(&release)), vec![("release", 36, 0, 0)]);
    assert_eq!(repeater.active_count(), 0);
}

#[test]
fn hardware_repeats_of_a_repeated_key_are_dropped() {
    let mut repeater = KeyRepeater::new(config_for_j(&[], None), true);
    repeater.handle_key_event(&event(36, KeyState::Pressed, Modifiers::new()));
    let commands = repeater.handle_key_event(&event(36, KeyState::Repeat, Modifiers::new()));
    assert!(commands.is_empty());
    assert_eq!(repeater.active_count(), 1);
}

#[test]
fn events_of_other_keys_are_passed_on_as_they_are() {
    let mut repeater = KeyRepeater::new(config_for_j(&[], None), true);
    let shift = Modifiers::new().with_shift(true);
    assert_eq!(
        plain_all(&repeater.handle_key_event(&event(37, KeyState::Pressed, shift))),
        vec![("press", 37, 4, 0)]
    );
    assert_eq!(
        plain_all(&repeater.handle_key_event(&event(37, KeyState::Repeat, shift))),
        vec![("repeat", 37, 4, 0)]
    );
    assert_eq!(
        plain_all(&repeater.handle_key_event(&event(37, KeyState::Released, shift))),
        vec![("release", 37, 4, 0)]
    );
    assert_eq!(
        plain_all(&repeater.handle_key_event(&event(36, KeyState::Pressed, shift))),
        vec![("press", 36, 4, 0)]
    );
    assert_eq!(
        plain_all(&repeater.handle_key_event(&event(500, KeyState::Pressed, Modifiers::new()))),
        vec![("press", 500, 0, 0)]
    );
    assert_eq!(repeater.active_count(), 0);
}

#[test]
fn a_release_ends_the_task_whatever_modifiers_it_carries() {
    let mut repeater = KeyRepeater::new(config_for_j(&[], None), true);
    let press = event(36, KeyState::Pressed, Modifiers::new());
    let hash = press.key_only_hash();
    repeater.handle_key_event(&press);
    let repeat = event(36, KeyState::Repeat, Modifiers::new().with_shift(true));
    assert!(repeater.handle_key_event(&repeat).is_empty());
    let release = event(36, KeyState::Released, Modifiers::new().with_shift(true));
    assert_eq!(
        plain_all(&repeater.handle_key_event(&release)),
        vec![("stop", 0, 0, hash), ("release", 36, 4, 0)]
    );
    assert_eq!(repeater.active_count(), 0);
    assert_eq!(plain_all(&repeater.handle_key_event(&repeat)), vec![("repeat", 36, 4, 0)]);
}

#[test]
fn the_toggle_key_only_toggles_when_pressed() {
    let mut repeater = KeyRepeater::new(config_for_j(&[], Some("f12")), true);
    let released = event(88, KeyState::Released, Modifiers::new());
    assert_eq!(plain_all(&repeater.handle_key_event(&released)), vec![("release", 88, 0, 0)]);
    assert!(repeater.is_enabled());
    let repeated = event(88, KeyState::Repeat, Modifiers::new());
    assert_eq!(plain_all(&repeater.handle_key_event(&repeated)), vec![("repeat", 88, 0, 0)]);
    assert!(repeater.is_enabled());
    let pressed = event(88, KeyState::Pressed, Modifiers::new().with_ctrl(true));
    assert_eq!(plain_all(&repeater.handle_key_event(&pressed)), vec![("press", 88, 1, 0)]);
    assert!(!repeater.is_enabled());
}

#[test]
fn a_toggle_key_that_is_also_mapped_toggles() {
    let mut repeater = KeyRepeater::new(config_for_j(&[], Some("j")), true);
    let press = event(36, KeyState::Pressed, Modifiers::new());
    assert_eq!(plain_all(&repeater.handle_key_event(&press)), vec![("press", 36, 0, 0)]);
    assert!(!repeater.is_enabled());
    assert_eq!(repeater.active_count(), 0);
}

#[test]
fn graceful_stop_releases_every_task_once() {
    let mut config = Config::default();
    config.mappings = ["a", "b", "c"]
        .iter()
        .map(|key| KeyMapping { key: key.to_string(), modifiers: vec!["alt".to_string()] })
        .collect();
    let mut repeater = KeyRepeater::new(config, true);
    let alt = Modifiers::new().with_alt(true);
    repeater.handle_key_event(&event(30, KeyState::Pressed, Modifiers::new()));
    repeater.handle_key_event(&event(48, KeyState::Pressed, alt));
    repeater.handle_key_event(&event(46, KeyState::Pressed, alt));
    assert_eq!(repeater.active_count(), 3);

    let commands = plain_all(&repeater.stop_all_repeaters_gracefully());
    assert_eq!(commands.len(), 6);
    let mut releases: Vec<_> = commands[..3].to_vec();
    releases.sort();
    assert_eq!(releases, vec![("release", 30, 0, 0), ("release", 46, 2, 0), ("release", 48, 2, 0)]);
    let mut stops: Vec<u64> = commands[3..]
        .iter()
        .map(|c| {
            assert_eq!(c.0, "stop");
            c.3
        })
        .collect();
    stops.sort();
    let mut hashes: Vec<u64> = [30u16, 48, 46]
        .iter()
        .map(|code| event(*code, KeyState::Pressed, Modifiers::new()).key_only_hash())
        .collect();
    hashes.sort();
    assert_eq!(stops, hashes);
    assert_eq!(repeater.active_count(), 0);

    assert!(repeater.stop_all_repeaters_gracefully().is_empty());
    assert_eq!(repeater.active_count(), 0);
}

#[test]
fn a_window_change_stops_everything_and_takes_the_title() {
    let mut repeater = KeyRepeater::new(config_for_j(&["nvim"], None), true);
    repeater.update_title("nvim");
    let press = event(36, KeyState::Pressed, Modifiers::new());
    let hash = press.key_only_hash();
    assert_eq!(repeater.handle_key_event(&press).len(), 2);
    let change = WindowEvent::focus_changed(WindowInfo::new("Browser".to_string()));
    assert_eq!(
        plain_all(&repeater.handle_window_event(change)),
        vec![("release", 36, 0, 0), ("stop", 0, 0, hash)]
    );
    assert_eq!(repeater.active_count(), 0);
    assert_eq!(plain_all(&repeater.handle_key_event(&press)), vec![("press", 36, 0, 0)]);
    let back = WindowEvent::focus_changed(WindowInfo::new("NVIM".to_string()));
    assert!(repeater.handle_window_event(back).is_empty());
    assert_eq!(repeater.handle_key_event(&press).len(), 2);
}

#[test]
fn stop_repeater_takes_one_task_off() {
    let mut repeater = KeyRepeater::new(Config::default(), true);
    let a = event(30, KeyState::Pressed, Modifiers::new());
    let b = event(48, KeyState::Pressed, Modifiers::new());
    repeater.start_repeater(&a);
    repeater.start_repeater(&b);
    let stopped = repeater.stop_repeater(a.key_only_hash());
    assert_eq!(stopped.as_ref().map(plain), Some(("stop", 0, 0, a.key_only_hash())));
    assert!(repeater.stop_repeater(a.key_only_hash()).is_none());
    assert_eq!(repeater.active_count(), 1);
    assert!(repeater.is_repeating(KeyCode::new(48)));
    assert!(!repeater.is_repeating(KeyCode::new(30)));
}

#[test]
fn a_failed_timer_is_taken_off_the_registry() {
    let mut repeater = KeyRepeater::new(config_for_j(&[], None), false);
    let press = event(36, KeyState::Pressed, Modifiers::new());
    repeater.handle_key_event(&press);
    repeater.handle_repeat_failure(press.key_only_hash());
    assert_eq!(repeater.active_count(), 0);
    repeater.handle_repeat_failure(press.key_only_hash());
    assert_eq!(repeater.active_count(), 0);
    assert_eq!(repeater.handle_key_event(&press).len(), 2);
}

#[test]
fn handle_key_press_and_release_directly() {
    let mut repeater = KeyRepeater::new(Config::default(), true);
    let ctrl = Modifiers::new().with_ctrl(true);
    let press = event(42, KeyState::Pressed, ctrl);
    let hash = press.key_only_hash();
    assert_eq!(
        plain_all(&repeater.handle_key_press(&press)),
        vec![("press", 42, 1, 0), ("start", 42, 1, hash)]
    );
    assert_eq!(plain_all(&repeater.handle_key_press(&press)), vec![("press", 42, 1, 0)]);
    let release = event(42, KeyState::Released, ctrl);
    assert_eq!(
        plain_all(&repeater.handle_key_release(&release)),
        vec![("stop", 0, 0, hash), ("release", 42, 1, 0)]
    );
    assert_eq!(plain_all(&repeater.handle_key_release(&release)), vec![("release", 42, 1, 0)]);
}

#[test]
fn modifiers_to_bits_of_names() {
    let names: Vec<String> = ["super", "alt", "other"].iter().map(|s| s.to_string()).collect();
    assert_eq!(KeyRepeater::modifiers_to_bits(&names), 0b1010);
    assert_eq!(KeyRepeater::modifiers_to_bits(&[]), 0);
    assert_eq!(
        KeyRepeater::modifiers_to_bits(&["ctrl".to_string(), "shift".to_string()]),
        0b0101
    );
}

#[test]
fn passthrough_keeps_key_state_and_modifiers() {
    for state in [KeyState::Pressed, KeyState::Released, KeyState::Repeat] {
        let modifiers = Modifiers::from_bits(6);
        let passed = passthrough_event(&event(77, state, modifiers));
        assert_eq!(passed.key_code, KeyCode(77));
        assert_eq!(passed.state, state);
        assert_eq!(passed.modifiers, modifiers);
    }
}

#[test]
fn cache_key_parts_in_order() {
    let key = CacheKey { key_name_hash: 1, modifiers_bits: 2, title_hash: 3, patterns_hash: 4 };
    assert_eq!(key.to_parts(), (1, 2, 3, 4));
}

#[test]
fn scenario_repeat_in_a_matching_window() {
    let mut repeater = KeyRepeater::new(config_for_j(&["nvim"], None), false);
    repeater.handle_window_event(WindowEvent::focus_changed(WindowInfo::new(
        "NVIM - file.txt".to_string(),
    )));

    let press = event(36, KeyState::Pressed, Modifiers::new());
    let commands = repeater.handle_key_event(&press);
    let hash = press.key_only_hash();
    assert_eq!(plain_all(&commands), vec![("press", 36, 0, 0), ("start", 36, 0, hash)]);
    assert_eq!(repeater.active_count(), 1);

    let delay = repeater.config().repeat.repeat_delay_ms;
    let mut task = match &commands[1] {
        RepeaterCommand::StartRepeat { key_code, modifiers, .. } => {
            RepeaterTask::new(*key_code, *modifiers, delay, repeater.dry_run())
        }
        other => panic!("no timer was started: {:?}", other),
    };
    let mut written = Vec::new();
    for tap in 1..=3u64 {
        match task.step(TaskInput::Tick) {
            TaskOutput::Send(e) => written.push((e.state, e.key_code.value())),
            other => panic!("no press: {:?}", other),
        }
        match task.step(TaskInput::Sent) {
            TaskOutput::Send(e) => written.push((e.state, e.key_code.value())),
            other => panic!("no release: {:?}", other),
        }
        match task.step(TaskInput::Sent) {
            TaskOutput::Sleep { millis } => assert_eq!(millis, 50),
            other => panic!("no sleep: {:?}", other),
        }
        assert_eq!(task.repeat_count(), tap);
        assert_eq!(task.phase(), TaskPhase::Waiting);
    }
    assert_eq!(
        written,
        vec![
            (KeyState::Pressed, 36),
            (KeyState::Released, 36),
            (KeyState::Pressed, 36),
            (KeyState::Released, 36),
            (KeyState::Pressed, 36),
            (KeyState::Released, 36),
        ]
    );

    let release = event(36, KeyState::Released, Modifiers::new());
    let commands = repeater.handle_key_event(&release);
    assert_eq!(plain_all(&commands), vec![("stop", 0, 0, hash), ("release", 36, 0, 0)]);
    assert_eq!(repeater.active_count(), 0);

    assert!(matches!(task.step(TaskInput::Cancelled), TaskOutput::Finish));
    assert!(matches!(task.step(TaskInput::Tick), TaskOutput::Finish));
    assert!(task.is_finished());
    assert_eq!(task.repeat_count(), 3);
}

#[test]
fn scenario_passthrough_in_another_window() {
    let mut repeater = KeyRepeater::new(config_for_j(&["nvim"], None), false);
    repeater
        .handle_window_event(WindowEvent::focus_changed(WindowInfo::new("Browser".to_string())));

    let press = event(36, KeyState::Pressed, Modifiers::new());
    assert_eq!(plain_all(&repeater.handle_key_event(&press)), vec![("press", 36, 0, 0)]);
    assert_eq!(repeater.active_count(), 0);

    let release = event(36, KeyState::Released, Modifiers::new());
    assert_eq!(plain_all(&repeater.handle_key_event(&release)), vec![("release", 36, 0, 0)]);
    assert_eq!(repeater.active_count(), 0);
}
