//! The error taxonomy of the tool, its process exit codes, and the mapping
//! from errors to protocol-level error outcomes.
use vstd::prelude::*;

use crate::json_request_processor::{ErrorId, Outcome};
use crate::text::str_concat;

verus! {

/// Everything that can go wrong, across client and server.
///
/// Errors that carry text from an outside source (I/O, JSON syntax, XDG
/// lookup, NUL in a C string) hold that text as a plain message.
#[derive(Debug, Clone)]
pub enum Error {
    NonUtf8DataHomePath,
    NotATerminal,
    UnsupportedInput,
    ClientShouldCloseConnection,
    MoreThanOneClient,
    ServerClosedConnection,
    UnixSocketAlreadyExists,
    ConfigNotFound(String),
    OptionNotFound(String),
    OneOfMultipleInputClosed,
    InputClosed,
    Io(String),
    Json(String),
    Xdg(String),
    NulInCString(String),
}

impl Error {
    /// The process exit code mapped to this error.
    pub fn exit_code(&self) -> (code: u8)
        ensures
            code == self.spec_exit_code(),
    {
        match self {
            Error::OneOfMultipleInputClosed => 2,
            Error::UnsupportedInput => 3,
            Error::UnixSocketAlreadyExists => 4,
            Error::MoreThanOneClient => 5,
            _ => 1,
        }
    }

    pub open spec fn spec_exit_code(&self) -> u8 {
        match self {
            Error::OneOfMultipleInputClosed => 2,
            Error::UnsupportedInput => 3,
            Error::UnixSocketAlreadyExists => 4,
            Error::MoreThanOneClient => 5,
            _ => 1,
        }
    }

    /// A human-readable description, as printed on stderr for fatal errors.
    pub fn message(&self) -> (m: String)
        ensures
            m@ == self.spec_message(),
    {
        match self {
            Error::ConfigNotFound(name) => str_concat("the config ", name.as_str()),
            Error::OptionNotFound(name) => str_concat("the config option ", name.as_str()),
            Error::NonUtf8DataHomePath => "data directory path with non-UTF-8 characters is not supported".to_owned(),
            Error::UnsupportedInput => "input is not supported".to_owned(),
            Error::NotATerminal => "not connected to a terminal".to_owned(),
            Error::OneOfMultipleInputClosed => "one of data sources is closed".to_owned(),
            Error::ServerClosedConnection => "server closed connection".to_owned(),
            Error::ClientShouldCloseConnection => "client should have closed connection, but it didn't".to_owned(),
            Error::UnixSocketAlreadyExists => "the unix socket to use already exists".to_owned(),
            Error::MoreThanOneClient => "there are other clients, so server cannot stop".to_owned(),
            Error::InputClosed => "input is closed".to_owned(),
            Error::Io(m) => m.clone(),
            Error::Json(m) => m.clone(),
            Error::Xdg(m) => m.clone(),
            Error::NulInCString(m) => m.clone(),
        }
    }

    pub open spec fn spec_message(&self) -> Seq<char> {
        match self {
            Error::ConfigNotFound(name) => "the config "@ + name@,
            Error::OptionNotFound(name) => "the config option "@ + name@,
            Error::NonUtf8DataHomePath => {
                "data directory path with non-UTF-8 characters is not supported"@
            },
            Error::UnsupportedInput => "input is not supported"@,
            Error::NotATerminal => "not connected to a terminal"@,
            Error::OneOfMultipleInputClosed => "one of data sources is closed"@,
            Error::ServerClosedConnection => "server closed connection"@,
            Error::ClientShouldCloseConnection => {
                "client should have closed connection, but it didn't"@
            },
            Error::UnixSocketAlreadyExists => "the unix socket to use already exists"@,
            Error::MoreThanOneClient => "there are other clients, so server cannot stop"@,
            Error::InputClosed => "input is closed"@,
            Error::Io(m) => m@,
            Error::Json(m) => m@,
            Error::Xdg(m) => m@,
            Error::NulInCString(m) => m@,
        }
    }

    /// Whether this error has a protocol-level reply form.
    pub open spec fn spec_has_outcome(&self) -> bool {
        match self {
            Error::UnsupportedInput => true,
            Error::MoreThanOneClient => true,
            Error::ConfigNotFound(_) => true,
            Error::OptionNotFound(_) => true,
            Error::Json(_) => true,
            Error::Io(_) => true,
            _ => false,
        }
    }

    /// The protocol-level error outcome for this error, for the errors that
    /// are reported back to the peer rather than terminating the process.
    pub fn to_outcome(&self) -> (r: Option<Outcome>)
        ensures
            r is Some <==> self.spec_has_outcome(),
            r matches Some(o) ==> o@ == self.spec_outcome(),
    {
        match self {
            Error::UnsupportedInput => Some(
                Outcome::Error {
                    id: ErrorId::UnsupportedInput,
                    message: "received unsupported input".to_owned(),
                },
            ),
            Error::MoreThanOneClient => Some(
                Outcome::Error { id: ErrorId::MoreThanOneClient, message: self.message() },
            ),
            Error::ConfigNotFound(_) => Some(
                Outcome::Error { id: ErrorId::ConfigNotFound, message: self.message() },
            ),
            Error::OptionNotFound(_) => Some(
                Outcome::Error { id: ErrorId::OptionNotFound, message: self.message() },
            ),
            Error::Json(_) => Some(
                Outcome::Error { id: ErrorId::JsonError, message: self.message() },
            ),
            Error::Io(_) => Some(Outcome::Error { id: ErrorId::IoError, message: self.message() }),
            _ => None,
        }
    }

    /// The outcome that `to_outcome` yields, at the spec level.
    pub open spec fn spec_outcome(&self) -> crate::json_request_processor::OutcomeV {
        match self {
            Error::UnsupportedInput => crate::json_request_processor::OutcomeV::Error {
                id: ErrorId::UnsupportedInput,
                message: "received unsupported input"@,
            },
            Error::MoreThanOneClient => crate::json_request_processor::OutcomeV::Error {
                id: ErrorId::MoreThanOneClient,
                message: self.spec_message(),
            },
            Error::ConfigNotFound(_) => crate::json_request_processor::OutcomeV::Error {
                id: ErrorId::ConfigNotFound,
                message: self.spec_message(),
            },
            Error::OptionNotFound(_) => crate::json_request_processor::OutcomeV::Error {
                id: ErrorId::OptionNotFound,
                message: self.spec_message(),
            },
            Error::Json(_) => crate::json_request_processor::OutcomeV::Error {
                id: ErrorId::JsonError,
                message: self.spec_message(),
            },
            Error::Io(_) => crate::json_request_processor::OutcomeV::Error {
                id: ErrorId::IoError,
                message: self.spec_message(),
            },
            _ => crate::json_request_processor::OutcomeV::Error {
                id: ErrorId::IoError,
                message: self.spec_message(),
            },
        }
    }
}

} // verus!
