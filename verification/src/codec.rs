//! The message codec of `edgedb_protocol`, behind contracts.
//!
//! The functions that call into the codec are not proved: each one states
//! what the codec does, as its source shows it. Everything else, here and
//! in the rest of the crate, is proved from those statements.

use crate::errors::{Error, ServerError};
use crate::guard::{is_safe_to_decode, safe_to_decode};
use crate::message::{
    Cardinality, ClientMessage, DataDescription, IoFormat, ProtocolVersion, ServerMessage,
    TransactionState,
};
use bytes::{Bytes, BytesMut};
use edgedb_protocol::client_message::ClientMessage as WireMessage;
use edgedb_protocol::client_message::IoFormat as WireFormat;
use edgedb_protocol::client_message::Prepare;
use edgedb_protocol::common::Cardinality as WireCardinality;
use edgedb_protocol::model::Uuid;
use edgedb_protocol::queryable::{Decoder, Queryable};
use edgedb_protocol::{client_message, common, encoding, features, server_message};
use std::collections::HashMap;
use vstd::prelude::*;
use vstd::utf8::{decode_utf8, valid_utf8};

verus! {

/// What `ServerMessage::decode` makes of one whole frame under a protocol
/// version, told in this crate's message type; `None` where it reports an
/// error.
pub uninterp spec fn decoded_message(major: u16, minor: u16, frame: Seq<u8>) -> Option<
    ServerMessage,
>;

/// The root position that `CommandDataDescription::output` finds for an
/// output descriptor and its id; `None` where the descriptor does not parse.
pub uninterp spec fn output_root(major: u16, minor: u16, id: Seq<u8>, typedesc: Seq<u8>) -> Option<
    Option<u16>,
>;

/// The root position that `CommandDataDescription::input` finds for an
/// input descriptor and its id; `None` where the descriptor does not parse.
pub uninterp spec fn input_root(major: u16, minor: u16, id: Seq<u8>, typedesc: Seq<u8>) -> Option<
    Option<u16>,
>;

/// Whether an encoder's answer is the wire form of `msg`.
pub open spec fn is_wire_of(r: Option<Vec<u8>>, msg: ClientMessage) -> bool {
    match r {
        Some(b) => msg.wire() == Some(b@),
        None => msg.wire() is None,
    }
}

/// `ClientMessage::encode` on an `ExecuteScript` without headers: the frame
/// holds a zero header count and the text behind its length. It fails where
/// the text or the frame is longer than a length field can say.
#[verifier::external_body]
fn encode_execute_script(proto: &ProtocolVersion, text: &String) -> (r: Option<Vec<u8>>)
    ensures
        is_wire_of(r, (ClientMessage::ExecuteScript { script_text: *text })),
{
    let msg = client_message::ClientMessage::ExecuteScript(
        client_message::ExecuteScript { headers: HashMap::new(), script_text: text.clone() },
    );
    let version = features::ProtocolVersion::new(proto.major_ver, proto.minor_ver);
    let mut buf = BytesMut::new();
    msg.encode(&mut encoding::Output::new(&version, &mut buf)).ok().map(|_| buf.to_vec())
}

/// `ClientMessage::encode` on a `Prepare` without headers: a zero header
/// count, the format byte, the cardinality byte, then the statement name
/// and the command text, each behind its length.
#[verifier::external_body]
fn encode_prepare(
    proto: &ProtocolVersion,
    io_format: IoFormat,
    cardinality: Cardinality,
    name: &Vec<u8>,
    text: &String,
) -> (r: Option<Vec<u8>>)
    ensures
        is_wire_of(
            r,
            (ClientMessage::Prepare {
                io_format,
                expected_cardinality: cardinality,
                statement_name: *name,
                command_text: *text,
            }),
        ),
{
    let io_format = match io_format {
        IoFormat::Binary => WireFormat::Binary,
        IoFormat::Json => WireFormat::Json,
        IoFormat::JsonElements => WireFormat::JsonElements,
    };
    let expected_cardinality = match cardinality {
        Cardinality::NoResult => WireCardinality::NoResult,
        Cardinality::AtMostOne => WireCardinality::AtMostOne,
        Cardinality::One => WireCardinality::One,
        Cardinality::Many => WireCardinality::Many,
    };
    let (statement_name, command_text, headers) = (Bytes::copy_from_slice(name), text.clone(), HashMap::new());
    let msg = Prepare { headers, io_format, expected_cardinality, statement_name, command_text };
    let (version, mut buf) = (features::ProtocolVersion::new(proto.major_ver, proto.minor_ver), BytesMut::new());
    WireMessage::Prepare(msg).encode(&mut encoding::Output::new(&version, &mut buf)).ok().map(|_| buf.to_vec())
}

/// `ClientMessage::encode` on a `DescribeStatement` without headers that
/// asks for the data description: a zero header count, the aspect byte,
/// then the statement name behind its length.
#[verifier::external_body]
fn encode_describe(proto: &ProtocolVersion, name: &Vec<u8>) -> (r: Option<Vec<u8>>)
    ensures
        is_wire_of(r, (ClientMessage::DescribeStatement { statement_name: *name })),
{
    let msg = client_message::ClientMessage::DescribeStatement(
        client_message::DescribeStatement {
            headers: HashMap::new(),
            aspect: client_message::DescribeAspect::DataDescription,
            statement_name: Bytes::copy_from_slice(name),
        },
    );
    let version = features::ProtocolVersion::new(proto.major_ver, proto.minor_ver);
    let mut buf = BytesMut::new();
    msg.encode(&mut encoding::Output::new(&version, &mut buf)).ok().map(|_| buf.to_vec())
}

/// `ClientMessage::encode` on an `Execute` without headers: a zero header
/// count, then the statement name and the arguments, each behind its
/// length.
#[verifier::external_body]
fn encode_execute(proto: &ProtocolVersion, name: &Vec<u8>, arguments: &Vec<u8>) -> (r: Option<
    Vec<u8>,
>)
    ensures
        is_wire_of(r, (ClientMessage::Execute { statement_name: *name, arguments: *arguments })),
{
    let msg = client_message::ClientMessage::Execute(
        client_message::Execute {
            headers: HashMap::new(),
            statement_name: Bytes::copy_from_slice(name),
            arguments: Bytes::copy_from_slice(arguments),
        },
    );
    let version = features::ProtocolVersion::new(proto.major_ver, proto.minor_ver);
    let mut buf = BytesMut::new();
    msg.encode(&mut encoding::Output::new(&version, &mut buf)).ok().map(|_| buf.to_vec())
}

/// `ClientMessage::encode` on `Sync`: a frame with an empty payload.
#[verifier::external_body]
fn encode_sync(proto: &ProtocolVersion) -> (r: Option<Vec<u8>>)
    ensures
        is_wire_of(r, ClientMessage::Sync),
{
    let version = features::ProtocolVersion::new(proto.major_ver, proto.minor_ver);
    let mut buf = BytesMut::new();
    let msg = client_message::ClientMessage::Sync;
    msg.encode(&mut encoding::Output::new(&version, &mut buf)).ok().map(|_| buf.to_vec())
}

/// `ClientMessage::encode` on `Flush`: a frame with an empty payload.
#[verifier::external_body]
fn encode_flush(proto: &ProtocolVersion) -> (r: Option<Vec<u8>>)
    ensures
        is_wire_of(r, ClientMessage::Flush),
{
    let version = features::ProtocolVersion::new(proto.major_ver, proto.minor_ver);
    let mut buf = BytesMut::new();
    let msg = client_message::ClientMessage::Flush;
    msg.encode(&mut encoding::Output::new(&version, &mut buf)).ok().map(|_| buf.to_vec())
}

/// `ClientMessage::encode` on `Terminate`: a frame with an empty payload.
#[verifier::external_body]
fn encode_terminate(proto: &ProtocolVersion) -> (r: Option<Vec<u8>>)
    ensures
        is_wire_of(r, ClientMessage::Terminate),
{
    let version = features::ProtocolVersion::new(proto.major_ver, proto.minor_ver);
    let mut buf = BytesMut::new();
    let msg = client_message::ClientMessage::Terminate;
    msg.encode(&mut encoding::Output::new(&version, &mut buf)).ok().map(|_| buf.to_vec())
}

/// Encodes one message: its wire form, or `None` where a length in it does
/// not fit its field.
pub fn encode_message(proto: &ProtocolVersion, msg: &ClientMessage) -> (r: Option<Vec<u8>>)
    ensures
        is_wire_of(r, *msg),
{
    match msg {
        ClientMessage::ExecuteScript { script_text } => encode_execute_script(proto, script_text),
        ClientMessage::Prepare {
            io_format,
            expected_cardinality,
            statement_name,
            command_text,
        } => encode_prepare(proto, *io_format, *expected_cardinality, statement_name, command_text),
        ClientMessage::DescribeStatement { statement_name } => encode_describe(
            proto,
            statement_name,
        ),
        ClientMessage::Execute { statement_name, arguments } => encode_execute(
            proto,
            statement_name,
            arguments,
        ),
        ClientMessage::Sync => encode_sync(proto),
        ClientMessage::Flush => encode_flush(proto),
        ClientMessage::Terminate => encode_terminate(proto),
    }
}

/// The transaction state in a decoded message, if it is a `ReadyForCommand`.
pub open spec fn ready_part(m: Option<ServerMessage>) -> Option<TransactionState> {
    match m {
        Some(ServerMessage::ReadyForCommand(s)) => Some(s),
        _ => None,
    }
}

/// The completion status in a decoded message, if it is a `CommandComplete`.
pub open spec fn complete_part(m: Option<ServerMessage>) -> Option<Vec<u8>> {
    match m {
        Some(ServerMessage::CommandComplete(status)) => Some(status),
        _ => None,
    }
}

/// The chunks in a decoded message, if it is a `Data`.
pub open spec fn data_part(m: Option<ServerMessage>) -> Option<Vec<Vec<u8>>> {
    match m {
        Some(ServerMessage::Data(chunks)) => Some(chunks),
        _ => None,
    }
}

/// The error in a decoded message, if it is an `ErrorResponse`.
pub open spec fn error_part(m: Option<ServerMessage>) -> Option<ServerError> {
    match m {
        Some(ServerMessage::ErrorResponse(e)) => Some(e),
        _ => None,
    }
}

/// The description in a decoded message, if it is a
/// `CommandDataDescription`.
pub open spec fn description_part(m: Option<ServerMessage>) -> Option<DataDescription> {
    match m {
        Some(ServerMessage::CommandDataDescription(d)) => Some(d),
        _ => None,
    }
}

/// Whether a decoded message is a `PrepareComplete`.
pub open spec fn prepared_part(m: Option<ServerMessage>) -> bool {
    m == Some(ServerMessage::PrepareComplete)
}

/// `ServerMessage::decode` on a frame with the code of `ReadyForCommand`,
/// keeping the transaction state. The decoder indexes the first five bytes
/// unchecked, so the frame must hold them.
#[verifier::external_body]
fn decode_ready(proto: &ProtocolVersion, frame: &Vec<u8>) -> (r: Option<TransactionState>)
    requires
        frame@.len() >= 5,
        frame@[0] == 0x5a,
    ensures
        r == ready_part(decoded_message(proto.major_ver, proto.minor_ver, frame@)),
{
    let version = features::ProtocolVersion::new(proto.major_ver, proto.minor_ver);
    let mut input = encoding::Input::new(version, Bytes::copy_from_slice(frame));
    match server_message::ServerMessage::decode(&mut input) {
        Ok(server_message::ServerMessage::ReadyForCommand(m)) => Some(
            match m.transaction_state {
                server_message::TransactionState::NotInTransaction => TransactionState::NotInTransaction,
                server_message::TransactionState::InTransaction => TransactionState::InTransaction,
                server_message::TransactionState::InFailedTransaction => TransactionState::InFailedTransaction,
            },
        ),
        _ => None,
    }
}

/// `ServerMessage::decode` on a frame with the code of `CommandComplete`,
/// keeping the status bytes.
#[verifier::external_body]
fn decode_complete(proto: &ProtocolVersion, frame: &Vec<u8>) -> (r: Option<Vec<u8>>)
    requires
        frame@.len() >= 5,
        frame@[0] == 0x43,
    ensures
        r == complete_part(decoded_message(proto.major_ver, proto.minor_ver, frame@)),
{
    let version = features::ProtocolVersion::new(proto.major_ver, proto.minor_ver);
    let mut input = encoding::Input::new(version, Bytes::copy_from_slice(frame));
    match server_message::ServerMessage::decode(&mut input) {
        Ok(server_message::ServerMessage::CommandComplete(m)) => Some(m.status_data.to_vec()),
        _ => None,
    }
}

/// `ServerMessage::decode` on a frame with the code of `Data`, keeping the
/// chunks in their order.
#[verifier::external_body]
fn decode_data(proto: &ProtocolVersion, frame: &Vec<u8>) -> (r: Option<Vec<Vec<u8>>>)
    requires
        frame@.len() >= 5,
        frame@[0] == 0x44,
    ensures
        r == data_part(decoded_message(proto.major_ver, proto.minor_ver, frame@)),
{
    let version = features::ProtocolVersion::new(proto.major_ver, proto.minor_ver);
    let mut input = encoding::Input::new(version, Bytes::copy_from_slice(frame));
    match server_message::ServerMessage::decode(&mut input) {
        Ok(server_message::ServerMessage::Data(m)) => Some(
            m.data.iter().map(|chunk| chunk.to_vec()).collect(),
        ),
        _ => None,
    }
}

/// `ServerMessage::decode` on a frame with the code of `ErrorResponse`,
/// keeping every field of the error.
#[verifier::external_body]
fn decode_error(proto: &ProtocolVersion, frame: &Vec<u8>) -> (r: Option<ServerError>)
    requires
        frame@.len() >= 5,
        frame@[0] == 0x45,
    ensures
        r == error_part(decoded_message(proto.major_ver, proto.minor_ver, frame@)),
{
    let version = features::ProtocolVersion::new(proto.major_ver, proto.minor_ver);
    let mut input = encoding::Input::new(version, Bytes::copy_from_slice(frame));
    match server_message::ServerMessage::decode(&mut input) {
        Ok(server_message::ServerMessage::ErrorResponse(m)) => Some(
            ServerError {
                severity: m.severity.to_u8(),
                code: m.code,
                message: m.message,
                attributes: m.attributes.into_iter().map(|(k, v)| (k, v.to_vec())).collect(),
            },
        ),
        _ => None,
    }
}

/// `ServerMessage::decode` on a frame with the code of
/// `CommandDataDescription`, keeping the cardinality byte, both descriptor
/// ids and both descriptors.
#[verifier::external_body]
fn decode_description(proto: &ProtocolVersion, frame: &Vec<u8>) -> (r: Option<DataDescription>)
    requires
        frame@.len() >= 5,
        frame@[0] == 0x54,
    ensures
        r == description_part(decoded_message(proto.major_ver, proto.minor_ver, frame@)),
{
    let version = features::ProtocolVersion::new(proto.major_ver, proto.minor_ver);
    let mut input = encoding::Input::new(version, Bytes::copy_from_slice(frame));
    match server_message::ServerMessage::decode(&mut input) {
        Ok(server_message::ServerMessage::CommandDataDescription(m)) => Some(
            DataDescription {
                result_cardinality: m.result_cardinality as u8,
                input_typedesc_id: m.input_typedesc_id.as_bytes().to_vec(),
                input_typedesc: m.input_typedesc.to_vec(),
                output_typedesc_id: m.output_typedesc_id.as_bytes().to_vec(),
                output_typedesc: m.output_typedesc.to_vec(),
            },
        ),
        _ => None,
    }
}

/// `ServerMessage::decode` on a frame with the code of `PrepareComplete`:
/// whether it decodes.
#[verifier::external_body]
fn decode_prepared(proto: &ProtocolVersion, frame: &Vec<u8>) -> (r: bool)
    requires
        frame@.len() >= 5,
        frame@[0] == 0x31,
    ensures
        r == prepared_part(decoded_message(proto.major_ver, proto.minor_ver, frame@)),
{
    let version = features::ProtocolVersion::new(proto.major_ver, proto.minor_ver);
    let mut input = encoding::Input::new(version, Bytes::copy_from_slice(frame));
    match server_message::ServerMessage::decode(&mut input) {
        Ok(server_message::ServerMessage::PrepareComplete(_)) => true,
        _ => false,
    }
}

/// `ServerMessage::decode` on a frame of any kind: whether it decodes. On
/// a `ServerHandshake` the decoder reads the key of every header entry
/// that the frame announces without looking whether the frame holds it,
/// and on an `Authentication` it makes room for as many methods as the
/// frame announces before it has seen one; frames that end too early for
/// that are kept from it.
#[verifier::external_body]
fn decode_other(proto: &ProtocolVersion, frame: &Vec<u8>) -> (r: bool)
    requires
        is_safe_to_decode(frame@),
    ensures
        r == (decoded_message(proto.major_ver, proto.minor_ver, frame@) is Some),
{
    let version = features::ProtocolVersion::new(proto.major_ver, proto.minor_ver);
    let mut input = encoding::Input::new(version, Bytes::copy_from_slice(frame));
    server_message::ServerMessage::decode(&mut input).is_ok()
}

/// `CommandDataDescription::output` on an output descriptor and its id,
/// keeping the root position. An id that is not sixteen bytes long counts
/// as a descriptor that does not parse.
#[verifier::external_body]
fn parse_output(proto: &ProtocolVersion, id: &Vec<u8>, typedesc: &Vec<u8>) -> (r: Option<
    Option<u16>,
>)
    ensures
        r == output_root(proto.major_ver, proto.minor_ver, id@, typedesc@),
{
    let description = server_message::CommandDataDescription {
        proto: features::ProtocolVersion::new(proto.major_ver, proto.minor_ver),
        headers: HashMap::new(),
        result_cardinality: common::Cardinality::Many,
        input_typedesc_id: Uuid::nil(),
        input_typedesc: Bytes::new(),
        output_typedesc_id: Uuid::from_slice(id).ok()?,
        output_typedesc: Bytes::copy_from_slice(typedesc),
    };
    description.output().ok().map(|desc| desc.root_pos().map(|pos| pos.0))
}

/// `CommandDataDescription::input` on an input descriptor and its id,
/// keeping the root position. An id that is not sixteen bytes long counts
/// as a descriptor that does not parse.
#[verifier::external_body]
fn parse_input(proto: &ProtocolVersion, id: &Vec<u8>, typedesc: &Vec<u8>) -> (r: Option<
    Option<u16>,
>)
    ensures
        r == input_root(proto.major_ver, proto.minor_ver, id@, typedesc@),
{
    let description = server_message::CommandDataDescription {
        proto: features::ProtocolVersion::new(proto.major_ver, proto.minor_ver),
        headers: HashMap::new(),
        result_cardinality: common::Cardinality::Many,
        input_typedesc_id: Uuid::from_slice(id).ok()?,
        input_typedesc: Bytes::copy_from_slice(typedesc),
        output_typedesc_id: Uuid::nil(),
        output_typedesc: Bytes::new(),
    };
    description.input().ok().map(|desc| desc.root_pos().map(|pos| pos.0))
}

/// The message that a whole frame stands for. A frame whose code the core
/// consumes must come back from the decoder as the kind that its code
/// announces. A frame of any other kind is `Other` once the decoder has
/// accepted it. What the decoder rejects is an encoding error, and so is
/// a frame that cannot be handed to it.
pub open spec fn message_of(proto: ProtocolVersion, frame: Seq<u8>) -> Result<ServerMessage, Error>
    recommends
        frame.len() >= 5,
{
    let m = decoded_message(proto.major_ver, proto.minor_ver, frame);
    let code = frame[0];
    if code == 0x5a {
        match ready_part(m) {
            Some(s) => Ok(ServerMessage::ReadyForCommand(s)),
            None => Err(Error::ProtocolEncoding),
        }
    } else if code == 0x43 {
        match complete_part(m) {
            Some(status) => Ok(ServerMessage::CommandComplete(status)),
            None => Err(Error::ProtocolEncoding),
        }
    } else if code == 0x44 {
        match data_part(m) {
            Some(chunks) => Ok(ServerMessage::Data(chunks)),
            None => Err(Error::ProtocolEncoding),
        }
    } else if code == 0x45 {
        match error_part(m) {
            Some(e) => Ok(ServerMessage::ErrorResponse(e)),
            None => Err(Error::ProtocolEncoding),
        }
    } else if code == 0x54 {
        match description_part(m) {
            Some(d) => Ok(ServerMessage::CommandDataDescription(d)),
            None => Err(Error::ProtocolEncoding),
        }
    } else if code == 0x31 {
        if prepared_part(m) {
            Ok(ServerMessage::PrepareComplete)
        } else {
            Err(Error::ProtocolEncoding)
        }
    } else if is_safe_to_decode(frame) && m is Some {
        Ok(ServerMessage::Other(code))
    } else {
        Err(Error::ProtocolEncoding)
    }
}

/// Decodes one whole frame.
pub fn decode_message(proto: &ProtocolVersion, frame: &Vec<u8>) -> (r: Result<ServerMessage, Error>)
    requires
        frame@.len() >= 5,
    ensures
        r == message_of(*proto, frame@),
{
    let code: u8 = frame[0];
    if code == 0x5a {
        match decode_ready(proto, frame) {
            Some(s) => Ok(ServerMessage::ReadyForCommand(s)),
            None => Err(Error::ProtocolEncoding),
        }
    } else if code == 0x43 {
        match decode_complete(proto, frame) {
            Some(status) => Ok(ServerMessage::CommandComplete(status)),
            None => Err(Error::ProtocolEncoding),
        }
    } else if code == 0x44 {
        match decode_data(proto, frame) {
            Some(chunks) => Ok(ServerMessage::Data(chunks)),
            None => Err(Error::ProtocolEncoding),
        }
    } else if code == 0x45 {
        match decode_error(proto, frame) {
            Some(e) => Ok(ServerMessage::ErrorResponse(e)),
            None => Err(Error::ProtocolEncoding),
        }
    } else if code == 0x54 {
        match decode_description(proto, frame) {
            Some(d) => Ok(ServerMessage::CommandDataDescription(d)),
            None => Err(Error::ProtocolEncoding),
        }
    } else if code == 0x31 {
        if decode_prepared(proto, frame) {
            Ok(ServerMessage::PrepareComplete)
        } else {
            Err(Error::ProtocolEncoding)
        }
    } else if safe_to_decode(frame) && decode_other(proto, frame) {
        Ok(ServerMessage::Other(code))
    } else {
        Err(Error::ProtocolEncoding)
    }
}

/// The root positions of both descriptors of a description, output first;
/// `None` where either does not parse.
pub open spec fn roots_of(proto: ProtocolVersion, d: DataDescription) -> Option<
    (Option<u16>, Option<u16>),
> {
    match output_root(proto.major_ver, proto.minor_ver, d.output_typedesc_id@, d.output_typedesc@) {
        Some(output) => match input_root(
            proto.major_ver,
            proto.minor_ver,
            d.input_typedesc_id@,
            d.input_typedesc@,
        ) {
            Some(input) => Some((output, input)),
            None => None,
        },
        None => None,
    }
}

/// Parses both descriptors of a description, the output one first.
pub fn parse_descriptors(proto: &ProtocolVersion, d: &DataDescription) -> (r: Option<
    (Option<u16>, Option<u16>),
>)
    ensures
        r == roots_of(*proto, *d),
{
    match parse_output(proto, &d.output_typedesc_id, &d.output_typedesc) {
        Some(output) => match parse_input(proto, &d.input_typedesc_id, &d.input_typedesc) {
            Some(input) => Some((output, input)),
            None => None,
        },
        None => None,
    }
}

/// Whether a decoder's answer is the text of a row: the characters that
/// the row encodes in UTF-8, and a failure exactly where it encodes none.
pub open spec fn is_text_of(r: Option<String>, row: Seq<u8>) -> bool {
    match r {
        Some(text) => valid_utf8(row) && text@ == decode_utf8(row),
        None => !valid_utf8(row),
    }
}

/// `Queryable::decode` for `String` on a row: the row read as UTF-8. The
/// decoder state is not looked at.
#[verifier::external_body]
fn decode_string(row: &Vec<u8>) -> (r: Option<String>)
    ensures
        is_text_of(r, row@),
{
    <String as Queryable>::decode(&Decoder::default(), row).ok()
}

/// Whether `decoded` is what a row of text decodes to.
pub open spec fn is_text_row(decoded: Result<String, Error>, row: Seq<u8>) -> bool {
    match decoded {
        Ok(text) => valid_utf8(row) && text@ == decode_utf8(row),
        Err(e) => e == Error::ProtocolEncoding && !valid_utf8(row),
    }
}

/// Decodes a row of text, as the rows of a JSON query and the row of the
/// version query are.
pub fn decode_text(row: &Vec<u8>) -> (r: Result<String, Error>)
    ensures
        is_text_row(r, row@),
{
    match decode_string(row) {
        Some(text) => Ok(text),
        None => Err(Error::ProtocolEncoding),
    }
}

} // verus!
