//! Why a connection was lost, and where the failure was noticed.
use crate::error::{error_text, new_error};
use std::io::{Error, ErrorKind};
use vstd::prelude::*;

verus! {

/// Reasons for a disconnect.
#[derive(Debug)]
#[non_exhaustive]
pub enum Reason {
    /// The end of the file was reached.
    ///
    /// This happens when a file has been read to its end, when the remote side closes a socket,
    /// and so on. It generally indicates a successful end of the connection.
    Eof,
    /// An I/O error occurred.
    Error(Error),
}

/// Which operation met the failure that led to a disconnect.
#[derive(Debug, Clone, Copy, PartialEq, Eq, Structural)]
pub enum Source {
    /// An operation on the underlying I/O object.
    Io,
    /// An attempt to establish the connection.
    Reconnect,
}

/// The kinds of error after which connecting again can help.
pub open spec fn kind_is_retryable(kind: ErrorKind) -> bool {
    ||| kind == ErrorKind::NotFound
    ||| kind == ErrorKind::PermissionDenied
    ||| kind == ErrorKind::ConnectionRefused
    ||| kind == ErrorKind::ConnectionAborted
    ||| kind == ErrorKind::ConnectionReset
    ||| kind == ErrorKind::NotConnected
    ||| kind == ErrorKind::AlreadyExists
    ||| kind == ErrorKind::HostUnreachable
    ||| kind == ErrorKind::AddrNotAvailable
    ||| kind == ErrorKind::NetworkDown
    ||| kind == ErrorKind::BrokenPipe
    ||| kind == ErrorKind::TimedOut
    ||| kind == ErrorKind::UnexpectedEof
    ||| kind == ErrorKind::NetworkUnreachable
    ||| kind == ErrorKind::AddrInUse
}

/// Whether an error of this kind can be retried.
pub fn retryable_kind(kind: ErrorKind) -> (retryable: bool)
    ensures
        retryable == kind_is_retryable(kind),
{
    match kind {
        ErrorKind::NotFound
        | ErrorKind::PermissionDenied
        | ErrorKind::ConnectionRefused
        | ErrorKind::ConnectionAborted
        | ErrorKind::ConnectionReset
        | ErrorKind::NotConnected
        | ErrorKind::AlreadyExists
        | ErrorKind::HostUnreachable
        | ErrorKind::AddrNotAvailable
        | ErrorKind::NetworkDown
        | ErrorKind::BrokenPipe
        | ErrorKind::TimedOut
        | ErrorKind::UnexpectedEof
        | ErrorKind::NetworkUnreachable
        | ErrorKind::AddrInUse => true,
        _ => false,
    }
}

/// `text` is one that the error displays.
pub closed spec fn displayed(error: Error, text: Seq<char>) -> bool {
    exists|shown: String| #![auto] call_ensures(error_text, (&error,), shown) && shown@ == text
}

/// The text of a reason that is an error is one that the error was found to display, and that of
/// the end of the file is always the same.
pub(crate) proof fn law_texts_are_displayed(reason: Reason, text: String)
    requires
        call_ensures(Reason::to_string, (&reason,), text),
    ensures
        reason is Eof ==> text@ == "End of file detected"@,
        reason matches Reason::Error(error) ==> exists|shown: String| #![auto]
            call_ensures(error_text, (&error,), shown) && shown@ == text@,
{
}

impl Reason {
    /// Whether the original error is capable of being retried.
    pub open spec fn is_retryable(self) -> bool {
        match self {
            Reason::Eof => true,
            Reason::Error(error) => kind_is_retryable(crate::error::error_kind(error)),
        }
    }

    /// A convenience function which returns whether the original error is capable of being retried.
    pub fn retryable(&self) -> (retryable: bool)
        ensures
            retryable == self.is_retryable(),
    {
        match self {
            Reason::Eof => true,
            Reason::Error(error) => retryable_kind(error.kind()),
        }
    }

    /// The text of the reason, given the text of the error that it may hold.
    pub fn text_with(&self, error: String) -> (text: String)
        ensures
            text@ == match self {
                Reason::Eof => "End of file detected"@,
                Reason::Error(_) => error@,
            },
    {
        match self {
            Reason::Eof => "End of file detected".to_string(),
            Reason::Error(_) => error,
        }
    }

    /// A text for the reason: that of the error, where there is one.
    ///
    /// The text of an error of the operating system is the system's own and may vary, so the error
    /// alone does not determine it: it is what the error displayed when it was asked.
    pub fn to_string(&self) -> (text: String)
        ensures
            match self {
                Reason::Eof => text@ == "End of file detected"@,
                Reason::Error(error) => displayed(*error, text@),
            },
    {
        let error = match self {
            Reason::Eof => String::new(),
            Reason::Error(error) => error_text(error),
        };
        self.text_with(error)
    }
}

impl From<Reason> for Error {
    fn from(value: Reason) -> (error: Self)
        ensures
            value is Eof ==> crate::error::error_kind(error) == ErrorKind::UnexpectedEof,
            value matches Reason::Error(own) ==> error == own,
            Reason::Error(error).is_retryable() == value.is_retryable(),
    {
        match value {
            Reason::Eof => new_error(ErrorKind::UnexpectedEof, "Eof error"),
            Reason::Error(error) => error,
        }
    }
}

impl vstd::std_specs::convert::FromSpecImpl<Reason> for Error {
    open spec fn obeys_from_spec() -> bool {
        true
    }

    open spec fn from_spec(value: Reason) -> Self {
        match value {
            Reason::Eof => crate::error::custom_error(ErrorKind::UnexpectedEof, "Eof error"@),
            Reason::Error(error) => error,
        }
    }
}

/// What the caller of an I/O operation gets for a disconnect that is not retried.
///
/// This is no general conversion: it fits the operations in which an end of file shows as a result
/// without data.
pub trait IoInto<T>: Sized {
    /// The result that stands for `self`.
    spec fn as_io(self) -> T;

    /// Turns `self` into the result of an operation.
    fn io_into(self) -> (result: T)
        ensures
            result == self.as_io(),
    ;
}

impl IoInto<Result<usize, Error>> for Reason {
    open spec fn as_io(self) -> Result<usize, Error> {
        match self {
            Reason::Eof => Ok(0),
            Reason::Error(error) => Err(error),
        }
    }

    fn io_into(self) -> Result<usize, Error> {
        match self {
            Reason::Eof => Ok(0),
            Reason::Error(error) => Err(error),
        }
    }
}

impl IoInto<Result<(), Error>> for Reason {
    open spec fn as_io(self) -> Result<(), Error> {
        match self {
            Reason::Eof => Ok(()),
            Reason::Error(error) => Err(error),
        }
    }

    fn io_into(self) -> Result<(), Error> {
        match self {
            Reason::Eof => Ok(()),
            Reason::Error(error) => Err(error),
        }
    }
}

impl<T> IoInto<Option<Result<T, Error>>> for Reason {
    open spec fn as_io(self) -> Option<Result<T, Error>> {
        match self {
            Reason::Eof => None,
            Reason::Error(error) => Some(Err(error)),
        }
    }

    fn io_into(self) -> Option<Result<T, Error>> {
        match self {
            Reason::Eof => None,
            Reason::Error(error) => Some(Err(error)),
        }
    }
}

} // verus!
