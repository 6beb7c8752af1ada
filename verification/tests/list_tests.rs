use ssh_manager::list::StatefulList;
use ssh_manager::model::{Status, StoredConnection};

fn record(label: &str, host: &str) -> StoredConnection {
    StoredConnection {
        label: label.to_string(),
        host: host.to_string(),
        port: Some("22".to_string()),
        user: Some("u".to_string()),
        password: Some(String::new()),
        details: Some(String::new()),
    }
}

fn three() -> StatefulList {
    StatefulList::with_items(vec![record("a", "h1"), record("b", "h2"), record("c", "h3")])
}

#[test]
fn with_items_resolves_defaults() {
    let bare = StoredConnection {
        label: "only".to_string(),
        host: "h".to_string(),
        port: None,
        user: None,
        password: None,
        details: None,
    };
    let l = StatefulList::with_items(vec![bare]);
    assert_eq!(l.items.len(), 1);
    assert_eq!(l.items[0].port, "22");
    assert_eq!(l.items[0].user, "root");
    assert_eq!(l.items[0].password, "");
    assert_eq!(l.items[0].details, "");
    assert!(matches!(l.items[0].status, Status::Available));
    assert_eq!(l.selected, None);
    assert_eq!(l.last_selected, None);
    assert_eq!(l.offset, 0);
}

#[test]
fn next_starts_at_top() {
    let mut l = three();
    l.next();
    assert_eq!(l.selected, Some(0));
}

#[test]
fn next_wraps_to_top() {
    let mut l = three();
    l.selected = Some(2);
    l.next();
    assert_eq!(l.selected, Some(0));
}

#[test]
fn previous_wraps_to_bottom() {
    let mut l = three();
    l.selected = Some(0);
    l.previous();
    assert_eq!(l.selected, Some(2));
}

#[test]
fn next_then_previous_restores_selection() {
    for start in 0..3usize {
        let mut l = three();
        l.selected = Some(start);
        l.next();
        l.previous();
        assert_eq!(l.selected, Some(start));
        l.previous();
        l.next();
        assert_eq!(l.selected, Some(start));
    }
}

#[test]
fn unselect_then_next_resumes_at_last_index() {
    let mut l = three();
    l.selected = Some(1);
    l.unselect();
    assert_eq!(l.selected, None);
    assert_eq!(l.last_selected, Some(1));
    l.next();
    assert_eq!(l.selected, Some(1));
}

#[test]
fn unselect_keeps_offset() {
    let mut l = three();
    l.selected = Some(2);
    l.offset = 2;
    l.unselect();
    assert_eq!(l.offset, 2);
}

#[test]
fn go_top_and_bottom() {
    let mut l = three();
    l.go_bottom();
    assert_eq!(l.selected, Some(2));
    l.go_top();
    assert_eq!(l.selected, Some(0));
}

#[test]
fn empty_list_operations_are_noops() {
    let mut l = StatefulList::with_items(Vec::new());
    l.next();
    assert_eq!(l.selected, None);
    l.previous();
    assert_eq!(l.selected, None);
    l.go_top();
    assert_eq!(l.selected, None);
    l.go_bottom();
    assert_eq!(l.selected, None);
    l.unselect();
    assert_eq!(l.selected, None);
}
