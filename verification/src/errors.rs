//! Errors surfaced by the protocol core.

use std::collections::BTreeMap;
use vstd::prelude::*;

verus! {

/// The family an [`Error`] belongs to.
#[derive(Clone, Copy, Debug, PartialEq, Eq, Structural)]
pub enum ErrorKind {
    /// Transport I/O failure.
    ClientConnection,
    /// The stream ended.
    ClientConnectionEos,
    /// Resynchronisation did not finish before its deadline.
    ClientConnectionTimeout,
    /// The connection was used while marked dirty.
    ClientInconsistent,
    /// Outbound arguments or messages could not be encoded.
    ClientEncoding,
    /// The server sent bytes that do not decode.
    ProtocolEncoding,
    /// The server sent a legal message at an illegal moment.
    ProtocolOutOfOrder,
    /// Any other protocol violation.
    Protocol,
    /// A row verb was used on a statement that produces no rows.
    NoResultExpected,
    /// A single-row verb met an empty result.
    NoData,
    /// The server reported an error.
    ErrorResponse,
}

/// What went wrong in a generic protocol violation.
#[derive(Clone, Copy, Debug, PartialEq, Eq, Structural)]
pub enum Violation {
    /// A single-row query produced a second row.
    ExtraRow,
    /// The server answered a `Terminate` instead of closing the stream.
    UnsolicitedMessage,
}

impl Violation {
    /// The violation in words.
    pub fn message(&self) -> (text: &'static str)
        ensures
            text@ == (match *self {
                Violation::ExtraRow => "extra row returned for query_row"@,
                Violation::UnsolicitedMessage => "unsolicited message"@,
            }),
    {
        match self {
            Violation::ExtraRow => "extra row returned for query_row",
            Violation::UnsolicitedMessage => "unsolicited message",
        }
    }
}

/// An error reported by the server, with the fields it had on the wire.
#[derive(Clone, Debug, PartialEq, Eq)]
pub struct ServerError {
    pub severity: u8,
    pub code: u32,
    pub message: String,
    pub attributes: BTreeMap<u16, Vec<u8>>,
}

/// An error returned by an operation on a connection.
#[derive(Clone, Debug, PartialEq, Eq)]
pub enum Error {
    ClientConnection,
    ClientConnectionEos,
    ClientConnectionTimeout,
    ClientInconsistent,
    ClientEncoding,
    ProtocolEncoding,
    ProtocolOutOfOrder,
    Protocol(Violation),
    /// Carries the completion status of the statement that ran instead.
    NoResultExpected(Vec<u8>),
    NoData,
    ErrorResponse(ServerError),
}

impl Error {
    /// The family of this error.
    pub open spec fn spec_kind(&self) -> ErrorKind {
        match *self {
            Error::ClientConnection => ErrorKind::ClientConnection,
            Error::ClientConnectionEos => ErrorKind::ClientConnectionEos,
            Error::ClientConnectionTimeout => ErrorKind::ClientConnectionTimeout,
            Error::ClientInconsistent => ErrorKind::ClientInconsistent,
            Error::ClientEncoding => ErrorKind::ClientEncoding,
            Error::ProtocolEncoding => ErrorKind::ProtocolEncoding,
            Error::ProtocolOutOfOrder => ErrorKind::ProtocolOutOfOrder,
            Error::Protocol(_) => ErrorKind::Protocol,
            Error::NoResultExpected(_) => ErrorKind::NoResultExpected,
            Error::NoData => ErrorKind::NoData,
            Error::ErrorResponse(_) => ErrorKind::ErrorResponse,
        }
    }

    /// Errors after which the connection can still be consistent: the
    /// request ran to its end on the wire and only its answer was an error.
    pub open spec fn is_benign(&self) -> bool {
        self is NoData || self is NoResultExpected || self is ErrorResponse
    }

    #[verifier::when_used_as_spec(spec_kind)]
    pub fn kind(&self) -> (k: ErrorKind)
        ensures
            k == self.spec_kind(),
    {
        match self {
            Error::ClientConnection => ErrorKind::ClientConnection,
            Error::ClientConnectionEos => ErrorKind::ClientConnectionEos,
            Error::ClientConnectionTimeout => ErrorKind::ClientConnectionTimeout,
            Error::ClientInconsistent => ErrorKind::ClientInconsistent,
            Error::ClientEncoding => ErrorKind::ClientEncoding,
            Error::ProtocolEncoding => ErrorKind::ProtocolEncoding,
            Error::ProtocolOutOfOrder => ErrorKind::ProtocolOutOfOrder,
            Error::Protocol(_) => ErrorKind::Protocol,
            Error::NoResultExpected(_) => ErrorKind::NoResultExpected,
            Error::NoData => ErrorKind::NoData,
            Error::ErrorResponse(_) => ErrorKind::ErrorResponse,
        }
    }
}

} // verus!
