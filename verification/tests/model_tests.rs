use ssh_manager::model::{ConnectionItem, Status, StoredConnection};

fn full_record() -> StoredConnection {
    StoredConnection {
        label: "lab".to_string(),
        host: "example.org".to_string(),
        port: Some("2022".to_string()),
        user: Some("admin".to_string()),
        password: Some("pw".to_string()),
        details: Some("spare".to_string()),
    }
}

#[test]
fn new_record_has_defaults() {
    let r = StoredConnection::new();
    assert_eq!(r.label, "");
    assert_eq!(r.host, "");
    assert_eq!(r.port, Some("22".to_string()));
    assert_eq!(r.user, Some(String::new()));
    assert_eq!(r.password, Some(String::new()));
    assert_eq!(r.details, Some(String::new()));
}

#[test]
fn duplicate_copies_every_field() {
    let r = full_record();
    let copy = r.duplicate();
    assert_eq!(copy.label, r.label);
    assert_eq!(copy.host, r.host);
    assert_eq!(copy.port, r.port);
    assert_eq!(copy.user, r.user);
    assert_eq!(copy.password, r.password);
    assert_eq!(copy.details, r.details);
}

#[test]
fn into_item_keeps_present_fields() {
    let item = full_record().into_item();
    assert_eq!(item.label, "lab");
    assert_eq!(item.host, "example.org");
    assert_eq!(item.port, "2022");
    assert_eq!(item.user, "admin");
    assert_eq!(item.password, "pw");
    assert_eq!(item.details, "spare");
    assert!(matches!(item.status, Status::Available));
}

#[test]
fn into_item_resolves_absent_fields() {
    let bare = StoredConnection {
        label: "l".to_string(),
        host: "h".to_string(),
        port: None,
        user: None,
        password: None,
        details: None,
    };
    let item = bare.into_item();
    assert_eq!(item.port, "22");
    assert_eq!(item.user, "");
    assert_eq!(item.password, "");
    assert_eq!(item.details, "");
}

#[test]
fn into_listed_uses_root_and_drops_details() {
    let bare = StoredConnection {
        label: "l".to_string(),
        host: "h".to_string(),
        port: None,
        user: None,
        password: None,
        details: Some("kept nowhere".to_string()),
    };
    let item = bare.into_listed();
    assert_eq!(item.port, "22");
    assert_eq!(item.user, "root");
    assert_eq!(item.details, "");
}

#[test]
fn into_stored_wraps_every_field() {
    let item = ConnectionItem {
        label: "l".to_string(),
        host: "h".to_string(),
        port: "22".to_string(),
        user: "".to_string(),
        password: "".to_string(),
        details: "".to_string(),
        status: Status::Available,
    };
    let r = item.into_stored();
    assert_eq!(r.label, "l");
    assert_eq!(r.host, "h");
    assert_eq!(r.port, Some("22".to_string()));
    assert_eq!(r.user, Some(String::new()));
    assert_eq!(r.password, Some(String::new()));
    assert_eq!(r.details, Some(String::new()));
}

#[test]
fn round_trip_keeps_none_and_empty_apart_until_resolution() {
    let with_empty = StoredConnection {
        label: "l".to_string(),
        host: "h".to_string(),
        port: Some(String::new()),
        user: Some(String::new()),
        password: Some(String::new()),
        details: Some(String::new()),
    };
    let item = with_empty.into_item();
    assert_eq!(item.port, "");
    let with_none = StoredConnection {
        label: "l".to_string(),
        host: "h".to_string(),
        port: None,
        user: None,
        password: None,
        details: None,
    };
    assert_eq!(with_none.into_item().port, "22");
}

#[test]
fn describe_shows_none_for_absent_fields() {
    let r = StoredConnection {
        label: "l".to_string(),
        host: "h".to_string(),
        port: Some("22".to_string()),
        user: None,
        password: None,
        details: None,
    };
    assert_eq!(
        r.describe(),
        "Label: l, Host: h, Port: 22, User: None, Password: None, Details: None"
    );
}

#[test]
fn display_lists_fields_line_by_line() {
    let item = full_record().into_item();
    assert_eq!(
        item.display(),
        "label: lab\nhost: example.org\nport: 2022\nuser: admin\ndetails: spare\n"
    );
}

#[test]
fn list_line_marks_availability() {
    let mut item = full_record().into_item();
    assert_eq!(item.list_line(), " > lab example.org");
    item.status = Status::NotAvailable;
    assert_eq!(item.list_line(), " X lab example.org");
}
