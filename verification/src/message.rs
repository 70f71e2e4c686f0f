//! The messages the core exchanges with the server, as plain values.

use crate::errors::ServerError;
use vstd::prelude::*;
use vstd::utf8::encode_utf8;

verus! {

/// The protocol version agreed on at the handshake.
#[derive(Clone, Copy, Debug, PartialEq, Eq, Structural)]
pub struct ProtocolVersion {
    pub major_ver: u16,
    pub minor_ver: u16,
}

impl ProtocolVersion {
    pub fn new(major_ver: u16, minor_ver: u16) -> (v: ProtocolVersion)
        ensures
            v == (ProtocolVersion { major_ver, minor_ver }),
    {
        ProtocolVersion { major_ver, minor_ver }
    }

    pub fn version_tuple(&self) -> (t: (u16, u16))
        ensures
            t == (self.major_ver, self.minor_ver),
    {
        (self.major_ver, self.minor_ver)
    }
}

/// Where the session stands with respect to transaction blocks.
#[derive(Clone, Copy, Debug, PartialEq, Eq, Structural)]
pub enum TransactionState {
    NotInTransaction,
    InTransaction,
    InFailedTransaction,
}

/// The shape in which the server is asked to send results.
#[derive(Clone, Copy, Debug, PartialEq, Eq, Structural)]
pub enum IoFormat {
    Binary,
    Json,
    JsonElements,
}

impl IoFormat {
    /// The byte that stands for this format on the wire.
    pub open spec fn wire_byte(self) -> u8 {
        match self {
            IoFormat::Binary => 0x62,
            IoFormat::Json => 0x6a,
            IoFormat::JsonElements => 0x4a,
        }
    }
}

/// How many rows the caller expects at most.
#[derive(Clone, Copy, Debug, PartialEq, Eq, Structural)]
pub enum Cardinality {
    NoResult,
    AtMostOne,
    One,
    Many,
}

impl Cardinality {
    /// The byte that stands for this cardinality on the wire.
    pub open spec fn wire_byte(self) -> u8 {
        match self {
            Cardinality::NoResult => 0x6e,
            Cardinality::AtMostOne => 0x6f,
            Cardinality::One => 0x41,
            Cardinality::Many => 0x6d,
        }
    }
}

/// A message the core sends. Headers are always empty and the described
/// aspect is always the data description, so neither is a field.
#[derive(Clone, Debug, PartialEq, Eq)]
pub enum ClientMessage {
    ExecuteScript { script_text: String },
    Prepare {
        io_format: IoFormat,
        expected_cardinality: Cardinality,
        statement_name: Vec<u8>,
        command_text: String,
    },
    DescribeStatement { statement_name: Vec<u8> },
    Execute { statement_name: Vec<u8>, arguments: Vec<u8> },
    Sync,
    Flush,
    Terminate,
}

/// What a `CommandDataDescription` message carries.
#[derive(Clone, Debug, PartialEq, Eq)]
pub struct DataDescription {
    /// The cardinality byte as it stood on the wire.
    pub result_cardinality: u8,
    pub input_typedesc_id: Vec<u8>,
    pub input_typedesc: Vec<u8>,
    pub output_typedesc_id: Vec<u8>,
    pub output_typedesc: Vec<u8>,
}

/// A message the core receives. Every kind the core has no use for is
/// `Other`, with its type code.
#[derive(Clone, Debug, PartialEq, Eq)]
pub enum ServerMessage {
    PrepareComplete,
    CommandDataDescription(DataDescription),
    Data(Vec<Vec<u8>>),
    CommandComplete(Vec<u8>),
    ReadyForCommand(TransactionState),
    ErrorResponse(ServerError),
    Other(u8),
}

impl ServerMessage {
    /// The type code that the message had on the wire.
    pub open spec fn spec_code(&self) -> u8 {
        match *self {
            ServerMessage::PrepareComplete => 0x31,
            ServerMessage::CommandDataDescription(_) => 0x54,
            ServerMessage::Data(_) => 0x44,
            ServerMessage::CommandComplete(_) => 0x43,
            ServerMessage::ReadyForCommand(_) => 0x5a,
            ServerMessage::ErrorResponse(_) => 0x45,
            ServerMessage::Other(code) => code,
        }
    }

    /// The type code that the message had on the wire.
    #[verifier::when_used_as_spec(spec_code)]
    pub fn code(&self) -> (code: u8)
        ensures
            code == self.spec_code(),
    {
        match self {
            ServerMessage::PrepareComplete => 0x31,
            ServerMessage::CommandDataDescription(_) => 0x54,
            ServerMessage::Data(_) => 0x44,
            ServerMessage::CommandComplete(_) => 0x43,
            ServerMessage::ReadyForCommand(_) => 0x5a,
            ServerMessage::ErrorResponse(_) => 0x45,
            ServerMessage::Other(code) => *code,
        }
    }
}

/// The four bytes of `n` in network order.
pub open spec fn be32(n: int) -> Seq<u8> {
    seq![
        ((n / 0x100_0000) % 0x100) as u8,
        ((n / 0x1_0000) % 0x100) as u8,
        ((n / 0x100) % 0x100) as u8,
        (n % 0x100) as u8,
    ]
}

/// The number that four bytes in network order stand for.
pub open spec fn be32_value(b: Seq<u8>) -> int
    recommends
        b.len() == 4,
{
    b[0] * 0x100_0000 + b[1] * 0x1_0000 + b[2] * 0x100 + b[3]
}

/// A byte string with its length in front.
pub open spec fn blob(b: Seq<u8>) -> Seq<u8> {
    be32(b.len() as int) + b
}

/// A frame: the type code, the length of what follows it, the payload.
pub open spec fn frame(code: u8, payload: Seq<u8>) -> Seq<u8> {
    seq![code] + be32(payload.len() + 4 as int) + payload
}

/// The largest number a length field can hold.
pub open spec fn max_len() -> int {
    0xffff_ffff
}

/// A frame around `payload`, if its length fits the length field.
pub open spec fn framed(code: u8, payload: Seq<u8>) -> Option<Seq<u8>> {
    if payload.len() + 4 <= max_len() {
        Some(frame(code, payload))
    } else {
        None
    }
}

/// The wire form of an `ExecuteScript` without headers: a zero header
/// count, then the text behind its length.
pub open spec fn execute_script_wire(text: Seq<char>) -> Option<Seq<u8>> {
    if encode_utf8(text).len() <= max_len() {
        framed(0x51, seq![0u8, 0u8] + blob(encode_utf8(text)))
    } else {
        None
    }
}

/// The wire form of a `Prepare` without headers: a zero header count, the
/// format byte, the cardinality byte, then the statement name and the
/// command text, each behind its length.
pub open spec fn prepare_wire(
    io_format: IoFormat,
    cardinality: Cardinality,
    name: Seq<u8>,
    text: Seq<char>,
) -> Option<Seq<u8>> {
    if name.len() <= max_len() && encode_utf8(text).len() <= max_len() {
        framed(
            0x50,
            seq![0u8, 0u8, io_format.wire_byte(), cardinality.wire_byte()] + blob(name) + blob(
                encode_utf8(text),
            ),
        )
    } else {
        None
    }
}

/// The wire form of a `DescribeStatement` without headers that asks for
/// the data description.
pub open spec fn describe_wire(name: Seq<u8>) -> Option<Seq<u8>> {
    if name.len() <= max_len() {
        framed(0x44, seq![0u8, 0u8, 0x54u8] + blob(name))
    } else {
        None
    }
}

/// The wire form of an `Execute` without headers: a zero header count,
/// then the statement name and the arguments, each behind its length.
pub open spec fn execute_wire(name: Seq<u8>, arguments: Seq<u8>) -> Option<Seq<u8>> {
    if name.len() <= max_len() && arguments.len() <= max_len() {
        framed(0x45, seq![0u8, 0u8] + blob(name) + blob(arguments))
    } else {
        None
    }
}

/// The wire form of `Sync`.
pub open spec fn sync_wire() -> Seq<u8> {
    frame(0x53, Seq::empty())
}

/// The wire form of `Flush`.
pub open spec fn flush_wire() -> Seq<u8> {
    frame(0x48, Seq::empty())
}

/// The wire form of `Terminate`.
pub open spec fn terminate_wire() -> Seq<u8> {
    frame(0x58, Seq::empty())
}

impl ClientMessage {
    /// The bytes of the message on the wire; `None` where a length in it
    /// does not fit its field.
    pub open spec fn wire(self) -> Option<Seq<u8>> {
        match self {
            ClientMessage::ExecuteScript { script_text } => execute_script_wire(script_text@),
            ClientMessage::Prepare {
                io_format,
                expected_cardinality,
                statement_name,
                command_text,
            } => prepare_wire(io_format, expected_cardinality, statement_name@, command_text@),
            ClientMessage::DescribeStatement { statement_name } => describe_wire(statement_name@),
            ClientMessage::Execute { statement_name, arguments } => execute_wire(
                statement_name@,
                arguments@,
            ),
            ClientMessage::Sync => Some(sync_wire()),
            ClientMessage::Flush => Some(flush_wire()),
            ClientMessage::Terminate => Some(terminate_wire()),
        }
    }
}

/// The wire forms of several messages, one after the other; `None` where
/// one of them cannot be encoded.
pub open spec fn wire_all(msgs: Seq<ClientMessage>) -> Option<Seq<u8>>
    decreases msgs.len(),
{
    if msgs.len() == 0 {
        Some(Seq::empty())
    } else {
        match (wire_all(msgs.drop_last()), msgs.last().wire()) {
            (Some(head), Some(tail)) => Some(head + tail),
            _ => None,
        }
    }
}

} // verus!
