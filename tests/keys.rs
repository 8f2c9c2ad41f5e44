use dcr::dashboard::App;
use dcr::keys::{Key, KeyAction, KeyCode, MouseKind, CONTROL, CONTROL_ALT, SHIFT};
use dcr::registry::ServiceSpec;
use dcr::screen::{AlternateScreenContent, SplitScreen};

fn app() -> App {
    App::new(
        "proj".to_string(),
        vec![
            ServiceSpec { name: "web".to_string(), container_name: None },
            ServiceSpec { name: "db".to_string(), container_name: None },
        ],
        Vec::new(),
        "compose.yml".to_string(),
        "/srv/proj/compose.yml".to_string(),
        "27.0".to_string(),
    )
}

fn key(code: KeyCode) -> Key {
    Key { code, modifiers: 0 }
}

fn ch(c: char) -> Key {
    key(KeyCode::Char(c))
}

#[test]
fn enter_starts_selected_and_queues() {
    let mut a = app();
    a.compose_content.error_msg = Some("old".to_string());
    match a.handle_key_at(key(KeyCode::Enter), 0) {
        KeyAction::Run(args) => assert_eq!(args, vec!["compose", "-f", "compose.yml", "up", "web", "-d"]),
        _ => panic!("expected a command"),
    }
    assert_eq!(a.compose_content.start_queued.state, vec![0]);
    assert_eq!(a.compose_content.error_msg, None);
}

#[test]
fn enter_closes_popup_first() {
    let mut a = app();
    a.show_popup = true;
    a.popup_scroll = 4;
    assert!(matches!(a.handle_key_at(key(KeyCode::Enter), 0), KeyAction::Nothing));
    assert!(!a.show_popup);
    assert_eq!(a.popup_scroll, 0);
    assert!(a.compose_content.start_queued.state.is_empty());
}

#[test]
fn escape_layers() {
    let mut a = app();
    a.alternate_screen_content = AlternateScreenContent::Help;
    a.show_popup = true;
    a.handle_key_at(key(KeyCode::Esc), 0);
    assert_eq!(a.alternate_screen_content, AlternateScreenContent::Main);
    assert!(a.show_popup);
    a.handle_key_at(ch('q'), 0);
    assert!(!a.show_popup);
    assert!(a.running);
    a.handle_key_at(ch('q'), 0);
    assert!(!a.running);
}

#[test]
fn ctrl_c_quits_plain_c_does_not() {
    let mut a = app();
    a.handle_key_at(ch('c'), 0);
    assert!(a.running);
    a.handle_key_at(Key { code: KeyCode::Char('c'), modifiers: CONTROL }, 0);
    assert!(!a.running);
}

#[test]
fn stop_all_and_start_all() {
    let mut a = app();
    match a.handle_key_at(ch('x'), 0) {
        KeyAction::Run(args) => assert_eq!(args, vec!["compose", "-f", "compose.yml", "down"]),
        _ => panic!("expected a command"),
    }
    assert_eq!(a.compose_content.stop_queued.state, vec![0, 1]);
    a.handle_key_at(ch('3'), 0);
    match a.handle_key_at(ch('a'), 0) {
        KeyAction::Run(args) => assert_eq!(args, vec!["compose", "-f", "compose.yml", "up", "-d", "--pull", "always"]),
        _ => panic!("expected a command"),
    }
    assert_eq!(a.compose_content.start_queued.state, vec![0, 1]);
}

#[test]
fn ctrl_l_clears_log() {
    let mut a = app();
    let s = a.restart_log_streaming().unwrap();
    a.compose_content.logs.append(0, s.task, "line".to_string());
    match a.handle_key_at(Key { code: KeyCode::Char('l'), modifiers: CONTROL }, 1234) {
        KeyAction::Stream(n) => {
            assert_eq!(n.options.since, Some(1234));
            assert_eq!(n.replaced, Some(s.task));
        }
        _ => panic!("expected a stream"),
    }
    assert!(a.compose_content.logs.streams[0].buffer.is_empty());
    assert!(matches!(a.handle_key_at(ch('l'), 0), KeyAction::Nothing));
}

#[test]
fn ctrl_w_removes_selected_ctrl_alt_w_all() {
    let mut a = app();
    match a.handle_key_at(Key { code: KeyCode::Char('w'), modifiers: CONTROL }, 7) {
        KeyAction::Remove(names) => assert_eq!(names, vec!["proj-web-1".to_string()]),
        _ => panic!("expected a removal"),
    }
    a.start_all_log_streaming();
    match a.handle_key_at(Key { code: KeyCode::Char('w'), modifiers: CONTROL_ALT }, 7) {
        KeyAction::Remove(names) => assert_eq!(names.len(), 2),
        _ => panic!("expected a removal"),
    }
    assert_eq!(a.compose_content.logs.active_task(1), None);
    assert!(matches!(a.handle_key_at(ch('w'), 7), KeyAction::Nothing));
}

#[test]
fn refresh_and_restart_keys() {
    let mut a = app();
    assert!(matches!(a.handle_key_at(ch('f'), 0), KeyAction::Refresh));
    let live = a.restart_log_streaming().unwrap();
    match a.handle_key_at(ch('r'), 0) {
        KeyAction::Restart { args, cancelled } => {
            assert_eq!(args, vec!["compose", "-f", "compose.yml", "restart", "web"]);
            assert_eq!(cancelled, Some(live.task));
        }
        _ => panic!("expected a restart"),
    }
    assert_eq!(a.compose_content.start_queued.state, vec![0]);
    match a.handle_key_at(ch('s'), 0) {
        KeyAction::Run(args) => assert_eq!(args, vec!["compose", "-f", "compose.yml", "down", "web"]),
        _ => panic!("expected a command"),
    }
    assert_eq!(a.compose_content.stop_queued.state, vec![0]);
}

#[test]
fn navigation_and_screens() {
    let mut a = app();
    a.vertical_scroll = 9;
    a.handle_key_at(key(KeyCode::Down), 0);
    assert_eq!(a.compose_content.selected, Some(1));
    assert_eq!(a.vertical_scroll, 0);
    a.handle_key_at(Key { code: KeyCode::Up, modifiers: SHIFT }, 0);
    assert_eq!(a.compose_content.selected, Some(0));
    a.handle_key_at(ch('e'), 0);
    assert_eq!(a.alternate_screen_content, AlternateScreenContent::ContainerDetails(SplitScreen::UpperLeft));
    a.handle_key_at(key(KeyCode::Tab), 0);
    assert_eq!(a.alternate_screen_content, AlternateScreenContent::ContainerDetails(SplitScreen::LowerLeft));
    a.handle_key_at(ch('k'), 0);
    assert_eq!(a.alternate_screen.lower_left_scroll, 1);
    a.handle_mouse_events(MouseKind::ScrollDown);
    assert_eq!(a.alternate_screen.lower_left_scroll, 6);
    a.handle_key_at(key(KeyCode::BackTab), 0);
    assert_eq!(a.alternate_screen_content, AlternateScreenContent::ContainerDetails(SplitScreen::UpperLeft));
    a.handle_key_at(ch('h'), 0);
    assert_eq!(a.alternate_screen_content, AlternateScreenContent::Help);
    a.handle_key_at(ch('h'), 0);
    assert_eq!(a.alternate_screen_content, AlternateScreenContent::Main);
    a.handle_mouse_events(MouseKind::ScrollDown);
    assert_eq!(a.vertical_scroll, 5);
    a.handle_key_at(ch('j'), 0);
    assert_eq!(a.vertical_scroll, 4);
}

#[test]
fn ctrl_l_now_resumes_at_current_time() {
    let mut a = app();
    match a.handle_key_events(Key { code: KeyCode::Char('l'), modifiers: CONTROL }) {
        KeyAction::Stream(n) => {
            assert_eq!(n.index, 0);
            assert!(n.options.since.unwrap() > 1_600_000_000);
            assert_eq!(a.compose_content.logs.streams[0].resume_since, n.options.since);
        }
        _ => panic!("expected a stream"),
    }
}
