//! Protocol core of an EdgeDB client, written without I/O of its own.
//!
//! The caller owns the byte stream. It writes what the connection has
//! queued, hands in what it read, and polls the operation in flight until
//! it reports its result.

pub mod client;
pub mod codec;
pub mod errors;
pub mod guard;
pub mod laws;
pub mod message;
pub mod poll;
pub mod queryable;
pub mod reader;
pub mod response;
pub mod sequence;
pub mod writer;

pub use client::{Connection, ServerParam, StatementParams};
pub use errors::{Error, ErrorKind, ServerError, Violation};
pub use message::{
    Cardinality, ClientMessage, DataDescription, IoFormat, ProtocolVersion, ServerMessage,
    TransactionState,
};
pub use poll::{Poll, Wait};
pub use reader::{Fault, Reader};
pub use response::{Blobs, QueryResponse};
pub use sequence::{Described, Goal, Reply, Sequence, SequenceModel, Stage};
pub use writer::Writer;
