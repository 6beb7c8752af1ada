use ssh_manager::model::{ConnectionItem, Status};
use ssh_manager::session::{classify_exit, SessionOutcome};
use ssh_manager::text::remove_whitespace;

fn item(label: &str, password: &str) -> ConnectionItem {
    ConnectionItem {
        label: label.to_string(),
        host: "10.0.0.1".to_string(),
        port: "2200".to_string(),
        user: "root".to_string(),
        password: password.to_string(),
        details: String::new(),
        status: Status::Available,
    }
}

#[test]
fn classify_zero_exit_is_success() {
    assert!(matches!(classify_exit(Some(0)), SessionOutcome::Success));
}

#[test]
fn classify_nonzero_exit_keeps_code() {
    assert!(matches!(classify_exit(Some(255)), SessionOutcome::Failure(255)));
    assert!(matches!(classify_exit(Some(-1)), SessionOutcome::Failure(-1)));
}

#[test]
fn classify_signal_exit_is_interrupted() {
    assert!(matches!(classify_exit(None), SessionOutcome::Interrupted));
}

#[test]
fn password_command_pipes_through_sshpass() {
    let cmd = item("box", "secret").ssh_password_command();
    assert_eq!(
        cmd,
        "sshpass -p secret ssh -o ServerAliveInterval=15 -o ServerAliveCountMax=3 \
         -o StrictHostKeyChecking=no root@10.0.0.1 -p 2200"
    );
}

#[test]
fn ssh_args_in_order() {
    let args = item("box", "").ssh_args();
    assert_eq!(
        args,
        vec![
            "-o ServerAliveInterval=15".to_string(),
            "-o ServerAliveCountMax=3".to_string(),
            "-o StrictHostKeyChecking=no".to_string(),
            "root@10.0.0.1".to_string(),
            "-p 2200".to_string(),
        ]
    );
}

#[test]
fn sshfs_args_in_order() {
    let args = item("my box", "").sshfs_args();
    assert_eq!(
        args,
        vec![
            "root@10.0.0.1:/".to_string(),
            "/tmp/mybox".to_string(),
            "-p 2200".to_string(),
        ]
    );
}

#[test]
fn mount_path_strips_whitespace() {
    assert_eq!(item("two words", "").sshfs_mount_path(), "/tmp/twowords");
    assert_eq!(item("plain", "").sshfs_mount_path(), "/tmp/plain");
}

#[test]
fn remove_whitespace_drops_all_kinds() {
    assert_eq!(remove_whitespace("a b\tc\nd"), "abcd");
    assert_eq!(remove_whitespace("  leading and trailing  "), "leadingandtrailing");
    assert_eq!(remove_whitespace(""), "");
    assert_eq!(remove_whitespace(" \t\n"), "");
    assert_eq!(remove_whitespace("a\u{a0}b\u{2003}c"), "abc");
}
