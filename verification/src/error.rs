//! The library's error type and its messages.

use vstd::prelude::*;

use crate::text::{decimal, format_i64, push_str_chars, IntErrorKind};

verus! {

/// The systemd command whose run failed.
#[derive(Debug, Clone, Copy, PartialEq, Eq, Structural)]
pub enum SystemdTool {
    /// `systemctl`
    Systemctl,
    /// `journalctl`
    Journalctl,
}

/// What can go wrong while collecting a service's state and reporting it.
#[derive(Debug, Clone, PartialEq, Eq)]
pub enum NotifierError {
    /// The command exited unsuccessfully; `code` is its exit code, if it
    /// had one.
    CommandFailed { tool: SystemdTool, code: Option<i32> },
    /// The command exited unsuccessfully; the compact report keeps no
    /// detail of it.
    CommandUnsuccessful,
    /// The command's standard output was not valid UTF-8.
    CorruptedOutput,
    /// A number of the report did not parse.
    InvalidInteger { kind: IntErrorKind },
    /// Looking up the current user failed.
    UserLookupFailed,
    /// The current user id has no user entry.
    NoUserFound,
    /// No service name, or one of white space only, was given.
    MissingServiceName,
    /// The webhook answered with a status outside `200..=299`; `body` is its
    /// answer.
    WebhookRejected { status: u16, body: String },
}

/// The name of the command.
pub open spec fn tool_name(tool: SystemdTool) -> Seq<char> {
    match tool {
        SystemdTool::Systemctl => "systemctl"@,
        SystemdTool::Journalctl => "journalctl"@,
    }
}

/// What std's `ParseIntError` says for each kind.
pub open spec fn int_error_message(kind: IntErrorKind) -> Seq<char> {
    match kind {
        IntErrorKind::Empty => "cannot parse integer from empty string"@,
        IntErrorKind::InvalidDigit => "invalid digit found in string"@,
        IntErrorKind::PosOverflow => "number too large to fit in target type"@,
        IntErrorKind::NegOverflow => "number too small to fit in target type"@,
    }
}

/// The message shown for an error.
pub open spec fn error_message(e: NotifierError) -> Seq<char> {
    match e {
        NotifierError::CommandFailed { tool, code } => tool_name(tool)
            + " exited with status code "@ + match code {
            Some(c) => decimal(c as int),
            None => "N/A"@,
        },
        NotifierError::CommandUnsuccessful => "wh"@,
        NotifierError::CorruptedOutput => "stdout contained corrupted data"@,
        NotifierError::InvalidInteger { kind } => int_error_message(kind),
        NotifierError::UserLookupFailed => "Couldn't find user"@,
        NotifierError::NoUserFound => "No user found"@,
        NotifierError::MissingServiceName => "You must specify a service name."@,
        NotifierError::WebhookRejected { status, body } => body@,
    }
}

impl NotifierError {
    /// The message shown for this error.
    pub fn message(&self) -> (res: String)
        ensures
            res@ == error_message(*self),
    {
        let mut s = String::new();
        match self {
            NotifierError::CommandFailed { tool, code } => {
                match tool {
                    SystemdTool::Systemctl => push_str_chars(&mut s, "systemctl"),
                    SystemdTool::Journalctl => push_str_chars(&mut s, "journalctl"),
                }
                push_str_chars(&mut s, " exited with status code ");
                match code {
                    Some(c) => {
                        let digits = format_i64(*c as i64);
                        push_str_chars(&mut s, digits.as_str());
                    },
                    None => push_str_chars(&mut s, "N/A"),
                }
            },
            NotifierError::CommandUnsuccessful => push_str_chars(&mut s, "wh"),
            NotifierError::CorruptedOutput => push_str_chars(&mut s, "stdout contained corrupted data"),
            NotifierError::InvalidInteger { kind } => match kind {
                IntErrorKind::Empty => push_str_chars(&mut s, "cannot parse integer from empty string"),
                IntErrorKind::InvalidDigit => push_str_chars(&mut s, "invalid digit found in string"),
                IntErrorKind::PosOverflow => push_str_chars(&mut s, "number too large to fit in target type"),
                IntErrorKind::NegOverflow => push_str_chars(&mut s, "number too small to fit in target type"),
            },
            NotifierError::UserLookupFailed => push_str_chars(&mut s, "Couldn't find user"),
            NotifierError::NoUserFound => push_str_chars(&mut s, "No user found"),
            NotifierError::MissingServiceName => push_str_chars(&mut s, "You must specify a service name."),
            NotifierError::WebhookRejected { body, .. } => push_str_chars(&mut s, body.as_str()),
        }
        assert(s@ =~= error_message(*self));
        s
    }
}

} // verus!
