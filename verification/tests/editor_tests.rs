use ssh_manager::editor::{EditorMode, EditorState, InputMode, Key};
use ssh_manager::model::{ConnectionItem, Status};

fn item() -> ConnectionItem {
    ConnectionItem {
        label: "box1".to_string(),
        host: "10.0.0.1".to_string(),
        port: "2200".to_string(),
        user: "root".to_string(),
        password: String::new(),
        details: String::new(),
        status: Status::Available,
    }
}

#[test]
fn create_editor_starts_blank_with_default_port() {
    let e = EditorState::for_create();
    assert_eq!(e.record.label, "");
    assert_eq!(e.record.host, "");
    assert_eq!(e.record.port, Some("22".to_string()));
    assert_eq!(e.record.user, Some(String::new()));
    assert_eq!(e.record.password, Some(String::new()));
    assert!(matches!(e.active_field, InputMode::Label));
    assert!(matches!(e.mode, EditorMode::Create));
}

#[test]
fn edit_editor_seeds_all_buffers_and_remembers_host() {
    let e = EditorState::for_edit(&item());
    assert_eq!(e.record.label, "box1");
    assert_eq!(e.record.host, "10.0.0.1");
    assert_eq!(e.record.port, Some("2200".to_string()));
    assert_eq!(e.record.user, Some("root".to_string()));
    assert_eq!(e.original_host, "10.0.0.1");
    assert!(matches!(e.mode, EditorMode::Edit));
    assert!(matches!(e.active_field, InputMode::Label));
}

#[test]
fn typing_appends_to_active_field() {
    let mut e = EditorState::for_create();
    e.handle_key(Key::Char('a'));
    e.handle_key(Key::Char('b'));
    assert_eq!(e.record.label, "ab");
    e.handle_key(Key::Tab);
    e.handle_key(Key::Char('h'));
    assert_eq!(e.record.host, "h");
    assert_eq!(e.record.label, "ab");
}

#[test]
fn backspace_removes_last_character() {
    let mut e = EditorState::for_create();
    e.handle_key(Key::Char('a'));
    e.handle_key(Key::Char('b'));
    e.handle_key(Key::Backspace);
    assert_eq!(e.record.label, "a");
    e.handle_key(Key::Backspace);
    assert_eq!(e.record.label, "");
    e.handle_key(Key::Backspace);
    assert_eq!(e.record.label, "");
}

#[test]
fn typing_into_absent_optional_field_creates_it() {
    let mut e = EditorState::for_create();
    e.record.user = None;
    e.active_field = InputMode::User;
    e.handle_key(Key::Char('r'));
    assert_eq!(e.record.user, Some("r".to_string()));
}

#[test]
fn backspace_on_absent_optional_field_is_noop() {
    let mut e = EditorState::for_create();
    e.record.port = None;
    e.active_field = InputMode::Port;
    e.handle_key(Key::Backspace);
    assert_eq!(e.record.port, None);
}

#[test]
fn tab_cycles_fields_in_order() {
    let mut e = EditorState::for_create();
    assert!(matches!(e.active_field, InputMode::Label));
    e.handle_key(Key::Tab);
    assert!(matches!(e.active_field, InputMode::Host));
    e.handle_key(Key::Tab);
    assert!(matches!(e.active_field, InputMode::Port));
    e.handle_key(Key::Tab);
    assert!(matches!(e.active_field, InputMode::User));
    e.handle_key(Key::Tab);
    assert!(matches!(e.active_field, InputMode::Password));
}

#[test]
fn five_tabs_return_to_label() {
    let mut e = EditorState::for_create();
    for _ in 0..5 {
        e.handle_key(Key::Tab);
    }
    assert!(matches!(e.active_field, InputMode::Label));
    assert_eq!(e.record.label, "");
}

#[test]
fn tab_leaves_buffers_untouched() {
    let mut e = EditorState::for_edit(&item());
    for _ in 0..5 {
        e.handle_key(Key::Tab);
    }
    assert_eq!(e.record.label, "box1");
    assert_eq!(e.record.host, "10.0.0.1");
    assert_eq!(e.record.port, Some("2200".to_string()));
}

#[test]
fn other_keys_are_ignored_by_editor() {
    let mut e = EditorState::for_edit(&item());
    e.handle_key(Key::Up);
    e.handle_key(Key::Down);
    e.handle_key(Key::Other);
    assert_eq!(e.record.label, "box1");
    assert!(matches!(e.active_field, InputMode::Label));
}
