//! Error types.

use vstd::prelude::*;

use crate::errno::{EINVAL, EIO};
use crate::text::{decimal, push_decimal, push_signed, signed_decimal};

verus! {

/// The error of a filesystem operation.
#[derive(Clone, Debug, PartialEq, Eq)]
pub enum FsError {
    /// An errno to hand to the caller: an injected fault or a rejection.
    Errno(i32),
    /// A configuration value that was refused, with the reason.
    Config(String),
    /// A failure of the underlying system, with the OS error code if it had one.
    Io(Option<i32>),
}

impl FsError {
    /// The errno that this error is reported as.
    pub open spec fn errno(self) -> i32 {
        match self {
            FsError::Errno(errno) => errno,
            FsError::Config(_) => EINVAL,
            FsError::Io(Some(code)) => code,
            FsError::Io(None) => EIO,
        }
    }

    /// The errno that this error is reported as.
    pub fn as_errno(&self) -> (errno: i32)
        ensures
            errno == self.errno(),
    {
        match self {
            FsError::Errno(errno) => *errno,
            FsError::Config(_) => EINVAL,
            FsError::Io(Some(code)) => *code,
            FsError::Io(None) => EIO,
        }
    }
}

/// Top-level error type of the library.
#[derive(Clone, Debug, PartialEq, Eq)]
pub enum FusecraftError {
    /// An I/O error from the underlying system, by its text.
    Io(String),
    /// A configuration parsing or validation error.
    Config(ConfigError),
    /// The requested inode was not found in the namespace.
    InodeNotFound(u64),
    /// A concurrency limit was exceeded.
    ConcurrencyLimitExceeded {
        /// The configured maximum concurrency.
        max: u32,
        /// The current number of in-flight operations.
        current: u32,
    },
    /// A bandwidth limit was exceeded.
    BandwidthLimitExceeded,
    /// An injected fault triggered an error return.
    InjectedFault {
        /// The errno value to return to the caller.
        errno: i32,
    },
}

/// Errors specific to configuration parsing and validation.
#[derive(Clone, Debug, PartialEq, Eq)]
pub enum ConfigError {
    /// The TOML input could not be parsed.
    Parse(String),
    /// A configuration value failed validation.
    Validation {
        /// The field that failed validation.
        field: String,
        /// The reason it failed.
        reason: String,
    },
    /// A required field was missing.
    MissingField(String),
}

impl ConfigError {
    /// What [`ConfigError::message`] says.
    pub open spec fn text(self) -> Seq<char> {
        match self {
            ConfigError::Parse(detail) => "TOML parse error: "@ + detail@,
            ConfigError::Validation { field, reason } => "validation error: "@ + field@ + ": "@
                + reason@,
            ConfigError::MissingField(field) => "missing required field: "@ + field@,
        }
    }

    /// The error as a line of text.
    pub fn message(&self) -> (text: String)
        ensures
            text@ == self.text(),
    {
        let mut out = String::new();
        match self {
            ConfigError::Parse(detail) => {
                out.append("TOML parse error: ");
                out.append(detail.as_str());
            },
            ConfigError::Validation { field, reason } => {
                out.append("validation error: ");
                out.append(field.as_str());
                out.append(": ");
                out.append(reason.as_str());
            },
            ConfigError::MissingField(field) => {
                out.append("missing required field: ");
                out.append(field.as_str());
            },
        }
        out
    }
}

impl FusecraftError {
    /// What [`FusecraftError::message`] says.
    pub open spec fn text(self) -> Seq<char> {
        match self {
            FusecraftError::Io(detail) => "I/O error: "@ + detail@,
            FusecraftError::Config(error) => "config error: "@ + error.text(),
            FusecraftError::InodeNotFound(ino) => "inode not found: "@ + decimal(ino as nat),
            FusecraftError::ConcurrencyLimitExceeded { max, current } => {
                "concurrency limit exceeded: max "@ + decimal(max as nat) + ", current "@ + decimal(
                    current as nat,
                )
            },
            FusecraftError::BandwidthLimitExceeded => "bandwidth limit exceeded"@,
            FusecraftError::InjectedFault { errno } => "injected fault: errno "@ + signed_decimal(
                errno as int,
            ),
        }
    }

    /// The error as a line of text.
    pub fn message(&self) -> (text: String)
        ensures
            text@ == self.text(),
    {
        let mut out = String::new();
        match self {
            FusecraftError::Io(detail) => {
                out.append("I/O error: ");
                out.append(detail.as_str());
            },
            FusecraftError::Config(error) => {
                out.append("config error: ");
                let detail = error.message();
                out.append(detail.as_str());
            },
            FusecraftError::InodeNotFound(ino) => {
                out.append("inode not found: ");
                push_decimal(&mut out, *ino);
            },
            FusecraftError::ConcurrencyLimitExceeded { max, current } => {
                out.append("concurrency limit exceeded: max ");
                push_decimal(&mut out, *max as u64);
                out.append(", current ");
                push_decimal(&mut out, *current as u64);
            },
            FusecraftError::BandwidthLimitExceeded => {
                out.append("bandwidth limit exceeded");
            },
            FusecraftError::InjectedFault { errno } => {
                out.append("injected fault: errno ");
                push_signed(&mut out, *errno);
            },
        }
        out
    }
}

impl From<ConfigError> for FusecraftError {
    fn from(error: ConfigError) -> (wrapped: FusecraftError) {
        FusecraftError::Config(error)
    }
}

impl vstd::std_specs::convert::FromSpecImpl<ConfigError> for FusecraftError {
    open spec fn obeys_from_spec() -> bool {
        true
    }

    open spec fn from_spec(error: ConfigError) -> FusecraftError {
        FusecraftError::Config(error)
    }
}

// --- Laws ---

/// An errno is reported as itself, a failure of the system by its code, and what
/// has neither as an invalid argument or an input/output error.
pub proof fn errors_are_reported_by_their_errno(error: FsError, errno: i32)
    ensures
        FsError::Errno(errno).errno() == errno,
        FsError::Io(Some(errno)).errno() == errno,
        FsError::Io(None).errno() == 5,
        error is Config ==> error.errno() == 22,
{
}

} // verus!
