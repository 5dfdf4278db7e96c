//! The failures an operation can report.

use vstd::prelude::*;
use crate::text::{concat2, concat3, i32_to_string, signed_decimal};

verus! {

/// Why an operation did not succeed.
#[derive(Debug)]
pub enum NetctlError {
    /// A required value was empty or malformed.
    InvalidParameter(String),
    /// The entity asked for does not exist.
    NotFound(String),
    /// No interface of that name exists.
    InterfaceNotFound(String),
    /// No device of that name exists.
    DeviceNotFound(String),
    /// The caller may not do this.
    PermissionDenied(String),
    /// A system command ran and failed.
    CommandFailed { cmd: String, code: Option<i32>, stderr: String },
    /// Reading or writing failed.
    Io(String),
    /// Input could not be parsed.
    ParseError(String),
    /// The operation took too long.
    Timeout(String),
    /// Something with that identity is already there.
    AlreadyExists(String),
    /// The configuration is unusable.
    ConfigError(String),
    /// A collaborator or transport failed.
    ServiceError(String),
    /// The feature is not available in this build or setup.
    NotSupported(String),
    /// The entity is not in a state that allows this.
    InvalidState(String),
}

/// A `NetctlError` with its texts as character sequences.
pub enum ErrorView {
    InvalidParameter(Seq<char>),
    NotFound(Seq<char>),
    InterfaceNotFound(Seq<char>),
    DeviceNotFound(Seq<char>),
    PermissionDenied(Seq<char>),
    CommandFailed { cmd: Seq<char>, code: Option<i32>, stderr: Seq<char> },
    Io(Seq<char>),
    ParseError(Seq<char>),
    Timeout(Seq<char>),
    AlreadyExists(Seq<char>),
    ConfigError(Seq<char>),
    ServiceError(Seq<char>),
    NotSupported(Seq<char>),
    InvalidState(Seq<char>),
}

impl View for NetctlError {
    type V = ErrorView;

    open spec fn view(&self) -> ErrorView {
        match self {
            NetctlError::InvalidParameter(m) => ErrorView::InvalidParameter(m@),
            NetctlError::NotFound(m) => ErrorView::NotFound(m@),
            NetctlError::InterfaceNotFound(m) => ErrorView::InterfaceNotFound(m@),
            NetctlError::DeviceNotFound(m) => ErrorView::DeviceNotFound(m@),
            NetctlError::PermissionDenied(m) => ErrorView::PermissionDenied(m@),
            NetctlError::CommandFailed { cmd, code, stderr } => ErrorView::CommandFailed {
                cmd: cmd@,
                code: *code,
                stderr: stderr@,
            },
            NetctlError::Io(m) => ErrorView::Io(m@),
            NetctlError::ParseError(m) => ErrorView::ParseError(m@),
            NetctlError::Timeout(m) => ErrorView::Timeout(m@),
            NetctlError::AlreadyExists(m) => ErrorView::AlreadyExists(m@),
            NetctlError::ConfigError(m) => ErrorView::ConfigError(m@),
            NetctlError::ServiceError(m) => ErrorView::ServiceError(m@),
            NetctlError::NotSupported(m) => ErrorView::NotSupported(m@),
            NetctlError::InvalidState(m) => ErrorView::InvalidState(m@),
        }
    }
}

/// The status a request/response front end reports for each kind of failure.
pub open spec fn status_of(e: ErrorView) -> u16 {
    match e {
        ErrorView::InvalidParameter(_) => 400,
        ErrorView::NotFound(_) => 404,
        ErrorView::InterfaceNotFound(_) => 404,
        ErrorView::DeviceNotFound(_) => 404,
        ErrorView::PermissionDenied(_) => 403,
        ErrorView::CommandFailed { .. } => 500,
        ErrorView::Io(_) => 500,
        ErrorView::ParseError(_) => 400,
        ErrorView::Timeout(_) => 408,
        ErrorView::AlreadyExists(_) => 409,
        ErrorView::ConfigError(_) => 400,
        ErrorView::ServiceError(_) => 503,
        ErrorView::NotSupported(_) => 501,
        ErrorView::InvalidState(_) => 409,
    }
}

/// The text shown for a failed command: with the exit code when there is one.
pub open spec fn command_failed_text(cmd: Seq<char>, code: Option<i32>, stderr: Seq<char>) -> Seq<
    char,
> {
    match code {
        Some(c) => "Command '"@ + cmd + "' failed with code "@ + signed_decimal(c as int) + ": "@
            + stderr,
        None => "Command '"@ + cmd + "' failed: "@ + stderr,
    }
}

/// The text a front end shows for a failure.
pub open spec fn message_of(e: ErrorView) -> Seq<char> {
    match e {
        ErrorView::InvalidParameter(m) => m,
        ErrorView::NotFound(m) => m,
        ErrorView::InterfaceNotFound(m) => m,
        ErrorView::DeviceNotFound(m) => m,
        ErrorView::PermissionDenied(m) => m,
        ErrorView::CommandFailed { cmd, code, stderr } => command_failed_text(cmd, code, stderr),
        ErrorView::Io(m) => m,
        ErrorView::ParseError(m) => m,
        ErrorView::Timeout(m) => m,
        ErrorView::AlreadyExists(m) => m,
        ErrorView::ConfigError(m) => m,
        ErrorView::ServiceError(m) => m,
        ErrorView::NotSupported(m) => m,
        ErrorView::InvalidState(m) => m,
    }
}

impl NetctlError {
    /// The status a request/response front end reports for this failure:
    /// 404 for anything not found, 400 for bad input, 403, 408, 409, 501 and
    /// 503 for their kinds, 500 for a failed command or I/O.
    pub fn status_code(&self) -> (r: u16)
        ensures
            r == status_of(self@),
    {
        match self {
            NetctlError::InvalidParameter(_) => 400,
            NetctlError::NotFound(_) => 404,
            NetctlError::InterfaceNotFound(_) => 404,
            NetctlError::DeviceNotFound(_) => 404,
            NetctlError::PermissionDenied(_) => 403,
            NetctlError::CommandFailed { .. } => 500,
            NetctlError::Io(_) => 500,
            NetctlError::ParseError(_) => 400,
            NetctlError::Timeout(_) => 408,
            NetctlError::AlreadyExists(_) => 409,
            NetctlError::ConfigError(_) => 400,
            NetctlError::ServiceError(_) => 503,
            NetctlError::NotSupported(_) => 501,
            NetctlError::InvalidState(_) => 409,
        }
    }

    /// The text a front end shows for this failure.
    pub fn message(&self) -> (r: String)
        ensures
            r@ == message_of(self@),
    {
        match self {
            NetctlError::InvalidParameter(m) => m.clone(),
            NetctlError::NotFound(m) => m.clone(),
            NetctlError::InterfaceNotFound(m) => m.clone(),
            NetctlError::DeviceNotFound(m) => m.clone(),
            NetctlError::PermissionDenied(m) => m.clone(),
            NetctlError::CommandFailed { cmd, code, stderr } => {
                match code {
                    Some(c) => {
                        let number = i32_to_string(*c);
                        let head = concat3("Command '", cmd.as_str(), "' failed with code ");
                        let mut out = concat3(head.as_str(), number.as_str(), ": ");
                        out.append(stderr.as_str());
                        out
                    },
                    None => {
                        let mut out = concat3("Command '", cmd.as_str(), "' failed: ");
                        out.append(stderr.as_str());
                        out
                    },
                }
            },
            NetctlError::Io(m) => m.clone(),
            NetctlError::ParseError(m) => m.clone(),
            NetctlError::Timeout(m) => m.clone(),
            NetctlError::AlreadyExists(m) => m.clone(),
            NetctlError::ConfigError(m) => m.clone(),
            NetctlError::ServiceError(m) => m.clone(),
            NetctlError::NotSupported(m) => m.clone(),
            NetctlError::InvalidState(m) => m.clone(),
        }
    }

    /// An owned copy of this failure.
    pub fn duplicate(&self) -> (r: NetctlError)
        ensures
            r@ == self@,
    {
        match self {
            NetctlError::InvalidParameter(m) => NetctlError::InvalidParameter(m.clone()),
            NetctlError::NotFound(m) => NetctlError::NotFound(m.clone()),
            NetctlError::InterfaceNotFound(m) => NetctlError::InterfaceNotFound(m.clone()),
            NetctlError::DeviceNotFound(m) => NetctlError::DeviceNotFound(m.clone()),
            NetctlError::PermissionDenied(m) => NetctlError::PermissionDenied(m.clone()),
            NetctlError::CommandFailed { cmd, code, stderr } => NetctlError::CommandFailed {
                cmd: cmd.clone(),
                code: *code,
                stderr: stderr.clone(),
            },
            NetctlError::Io(m) => NetctlError::Io(m.clone()),
            NetctlError::ParseError(m) => NetctlError::ParseError(m.clone()),
            NetctlError::Timeout(m) => NetctlError::Timeout(m.clone()),
            NetctlError::AlreadyExists(m) => NetctlError::AlreadyExists(m.clone()),
            NetctlError::ConfigError(m) => NetctlError::ConfigError(m.clone()),
            NetctlError::ServiceError(m) => NetctlError::ServiceError(m.clone()),
            NetctlError::NotSupported(m) => NetctlError::NotSupported(m.clone()),
            NetctlError::InvalidState(m) => NetctlError::InvalidState(m.clone()),
        }
    }
}

/// `NotFound` with the text `<what><name> not found`.
pub fn not_found(what: &str, name: &str) -> (e: NetctlError)
    ensures
        e@ == ErrorView::NotFound(what@ + name@ + " not found"@),
{
    NetctlError::NotFound(concat3(what, name, " not found"))
}

/// `InvalidParameter` with `prefix` followed by `detail` as its text.
pub fn invalid_parameter(prefix: &str, detail: &str) -> (e: NetctlError)
    ensures
        e@ == ErrorView::InvalidParameter(prefix@ + detail@),
{
    NetctlError::InvalidParameter(concat2(prefix, detail))
}

} // verus!
