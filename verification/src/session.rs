//! Session launcher support: the exact commands handed to the external
//! `ssh` and `sshfs` binaries, and the classification of a child
//! process's exit.
//!
//! The shell suspends the terminal, spawns the child, waits for it, and
//! restores or exits; everything it passes on the command line is built
//! and pinned down here.

use vstd::prelude::*;

use crate::model::{ConnectionItem, ConnectionItemView};
use crate::text::{is_whitespace_char, remove_whitespace};

verus! {

/// How a launched session ended.
#[derive(Clone, Copy, PartialEq, Eq, Structural, Debug)]
pub enum SessionOutcome {
    /// The child exited with code 0.
    Success,
    /// The child exited with the given non-zero code; its captured
    /// standard error is to be shown.
    Failure(i32),
    /// The child was ended by a signal and carried no exit code.
    Interrupted,
}

/// Classifies a child's exit: code 0 is silent success, a non-zero code
/// is a failure to report, and no code at all means the child was
/// interrupted.
pub fn classify_exit(code: Option<i32>) -> (r: SessionOutcome)
    ensures
        code matches Some(c) ==> r == (if c == 0 {
            SessionOutcome::Success
        } else {
            SessionOutcome::Failure(c)
        }),
        code is None ==> r == SessionOutcome::Interrupted,
{
    match code {
        Some(0) => SessionOutcome::Success,
        Some(c) => SessionOutcome::Failure(c),
        None => SessionOutcome::Interrupted,
    }
}

/// The shell command that logs in with a stored password: the password
/// is piped through `sshpass` into `ssh`, with host-key checking
/// disabled and keep-alive probes every 15 seconds, 3 missed at most.
pub open spec fn ssh_password_command_text(c: ConnectionItemView) -> Seq<char> {
    "sshpass -p "@ + c.password + " ssh -o ServerAliveInterval=15 -o ServerAliveCountMax=3 -o StrictHostKeyChecking=no "@
        + c.user + "@"@ + c.host + " -p "@ + c.port
}

/// The `user@host` login target of an `ssh` call.
pub open spec fn ssh_target_text(c: ConnectionItemView) -> Seq<char> {
    c.user + "@"@ + c.host
}

/// The `user@host:/` source of an `sshfs` mount.
pub open spec fn sshfs_source_text(c: ConnectionItemView) -> Seq<char> {
    c.user + "@"@ + c.host + ":/"@
}

/// The port argument handed to `ssh` and `sshfs`.
pub open spec fn port_arg_text(c: ConnectionItemView) -> Seq<char> {
    "-p "@ + c.port
}

/// The mount point for an `sshfs` session: a directory under /tmp named
/// from the record's label with all whitespace stripped.
pub open spec fn mount_path_text(c: ConnectionItemView) -> Seq<char> {
    "/tmp/"@ + c.label.filter(|ch: char| !is_whitespace_char(ch))
}

impl ConnectionItem {
    /// Builds the password-login shell command for this item.
    pub fn ssh_password_command(&self) -> (r: String)
        ensures
            r@ == ssh_password_command_text(self@),
    {
        let mut r = String::new();
        r.append("sshpass -p ");
        r.append(self.password.as_str());
        r.append(
            " ssh -o ServerAliveInterval=15 -o ServerAliveCountMax=3 -o StrictHostKeyChecking=no ",
        );
        r.append(self.user.as_str());
        r.append("@");
        r.append(self.host.as_str());
        r.append(" -p ");
        r.append(self.port.as_str());
        r
    }

    /// The arguments of a direct `ssh` call for this item, in order:
    /// the keep-alive and host-key options, the login target, the port.
    pub fn ssh_args(&self) -> (r: Vec<String>)
        ensures
            r@.len() == 5,
            r@[0]@ == "-o ServerAliveInterval=15"@,
            r@[1]@ == "-o ServerAliveCountMax=3"@,
            r@[2]@ == "-o StrictHostKeyChecking=no"@,
            r@[3]@ == ssh_target_text(self@),
            r@[4]@ == port_arg_text(self@),
    {
        let mut target = String::new();
        target.append(self.user.as_str());
        target.append("@");
        target.append(self.host.as_str());
        let mut port = String::from_str("-p ");
        port.append(self.port.as_str());
        let mut r: Vec<String> = Vec::new();
        r.push(String::from_str("-o ServerAliveInterval=15"));
        r.push(String::from_str("-o ServerAliveCountMax=3"));
        r.push(String::from_str("-o StrictHostKeyChecking=no"));
        r.push(target);
        r.push(port);
        r
    }

    /// The mount point of an `sshfs` session for this item.
    pub fn sshfs_mount_path(&self) -> (r: String)
        ensures
            r@ == mount_path_text(self@),
    {
        let mut r = String::from_str("/tmp/");
        let stripped = remove_whitespace(self.label.as_str());
        r.append(stripped.as_str());
        r
    }

    /// The arguments of an `sshfs` call for this item, in order: the
    /// remote root, the mount point, the port.
    pub fn sshfs_args(&self) -> (r: Vec<String>)
        ensures
            r@.len() == 3,
            r@[0]@ == sshfs_source_text(self@),
            r@[1]@ == mount_path_text(self@),
            r@[2]@ == port_arg_text(self@),
    {
        let mut source = String::new();
        source.append(self.user.as_str());
        source.append("@");
        source.append(self.host.as_str());
        source.append(":/");
        let mut port = String::from_str("-p ");
        port.append(self.port.as_str());
        let mut r: Vec<String> = Vec::new();
        r.push(source);
        r.push(self.sshfs_mount_path());
        r.push(port);
        r
    }
}

} // verus!
