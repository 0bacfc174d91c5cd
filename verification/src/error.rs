//! The error type shared by the whole crate.

use vstd::prelude::*;
use vstd::string::StringExecFns;

verus! {

/// The main information about an error: every error carries one, so that
/// errors can be told apart without looking at their text.
#[derive(Clone, Copy, PartialEq, Eq, Debug, Structural)]
pub enum Kind {
    ConfigError,
    Internal,
}

/// Why a file could not be read, as far as the error that is made of it
/// depends on it.
#[derive(Clone, Copy, PartialEq, Eq, Debug, Structural)]
pub enum IoFailure {
    NotFound,
    PermissionDenied,
    Other,
}

/// The message of the error for a file that is not there.
pub const FILE_NOT_FOUND: &'static str = "File not found";

/// The message of the error for a file that may not be read.
pub const PERMISSION_DENIED: &'static str = "Permission denied to access file";

/// The name of a kind, as it stands at the start of an error's text.
pub open spec fn kind_name(kind: Kind) -> Seq<char> {
    match kind {
        Kind::ConfigError => "ConfigError"@,
        Kind::Internal => "Internal"@,
    }
}

/// An error of this crate: a kind and, where there is one, a message.
#[derive(Clone, Debug, PartialEq)]
pub struct Error {
    kind: Kind,
    msg: Option<String>,
}

impl Error {
    /// The kind of the error.
    pub closed spec fn spec_kind(&self) -> Kind {
        self.kind
    }

    /// The text of the message, if the error has one.
    pub closed spec fn spec_msg(&self) -> Option<Seq<char>> {
        match self.msg {
            Some(m) => Some(m@),
            None => None,
        }
    }

    /// Creates an error of the given kind with a message.
    pub fn with_msg(kind: Kind, msg: &str) -> (e: Error)
        ensures
            e.spec_kind() == kind,
            e.spec_msg() == Some(msg@),
    {
        Error { kind, msg: Some(msg.to_owned()) }
    }

    /// Creates a configuration error with a message.
    pub fn config_err(msg: &str) -> (e: Error)
        ensures
            e.spec_kind() == Kind::ConfigError,
            e.spec_msg() == Some(msg@),
    {
        Error { kind: Kind::ConfigError, msg: Some(msg.to_owned()) }
    }

    /// The error for a file that could not be read: a configuration error,
    /// with a fixed message where the file is not there or may not be read,
    /// and with `description` as its message otherwise.
    pub fn from_io(failure: IoFailure, description: &str) -> (e: Error)
        ensures
            e.spec_kind() == Kind::ConfigError,
            e.spec_msg() == Some(
                match failure {
                    IoFailure::NotFound => FILE_NOT_FOUND@,
                    IoFailure::PermissionDenied => PERMISSION_DENIED@,
                    IoFailure::Other => description@,
                },
            ),
    {
        match failure {
            IoFailure::NotFound => Error::config_err(FILE_NOT_FOUND),
            IoFailure::PermissionDenied => Error::config_err(PERMISSION_DENIED),
            IoFailure::Other => Error::config_err(description),
        }
    }

    /// The text of the error: the name of its kind, a colon, a space, and
    /// the message where there is one.
    pub fn describe(&self) -> (text: String)
        ensures
            text@ == kind_name(self.spec_kind()) + ": "@ + match self.spec_msg() {
                Some(m) => m,
                None => Seq::empty(),
            },
    {
        let name = match self.kind {
            Kind::ConfigError => "ConfigError",
            Kind::Internal => "Internal",
        };
        let text = String::from_str(name).concat(": ");
        match &self.msg {
            Some(m) => text.concat(m.as_str()),
            None => {
                assert(text@ + Seq::<char>::empty() =~= text@);
                text
            },
        }
    }

    /// The kind of the error.
    #[verifier::when_used_as_spec(spec_kind)]
    pub fn kind(&self) -> (k: Kind)
        ensures
            k == self.spec_kind(),
    {
        self.kind
    }

    /// The message of the error, if it has one.
    pub fn msg(&self) -> (m: Option<&str>)
        ensures
            m.is_some() == self.spec_msg().is_some(),
            m matches Some(s) ==> self.spec_msg() == Some(s@),
    {
        match &self.msg {
            Some(m) => Some(m.as_str()),
            None => None,
        }
    }
}

impl Default for Error {
    /// An internal error without a message.
    fn default() -> (e: Error)
        ensures
            e.spec_kind() == Kind::Internal,
            e.spec_msg().is_none(),
    {
        Error { kind: Kind::Internal, msg: None }
    }
}

} // verus!
