use std::collections::HashMap;

use bytes::{Bytes, BytesMut};
use edgedb_client::queryable::{Derivation, DeriveError, ItemKind};
use edgedb_client::{
    Cardinality, ClientMessage, Error, Fault, IoFormat, Poll, ProtocolVersion, Reader,
    ServerMessage, StatementParams, TransactionState, Wait, Writer,
};
use edgedb_protocol::client_message as request;
use edgedb_protocol::encoding::{Input, Output};
use edgedb_protocol::model::Uuid;
use edgedb_protocol::server_message as wire;

fn version() -> edgedb_protocol::features::ProtocolVersion {
    edgedb_protocol::features::ProtocolVersion::new(0, 12)
}

fn frame(msg: wire::ServerMessage) -> Vec<u8> {
    let mut buf = BytesMut::new();
    msg.encode(&mut Output::new(&version(), &mut buf)).unwrap();
    buf.to_vec()
}

fn written(msgs: Vec<ClientMessage>) -> Vec<u8> {
    let mut writer = Writer::new(ProtocolVersion::new(0, 12));
    assert_eq!(writer.send_messages(&msgs), Ok(()));
    writer.pending().clone()
}

fn parsed(bytes: &[u8]) -> request::ClientMessage {
    request::ClientMessage::decode(&mut Input::new(version(), Bytes::copy_from_slice(bytes))).unwrap()
}

fn reader() -> Reader {
    Reader::new(ProtocolVersion::new(0, 12), TransactionState::NotInTransaction)
}

fn read(bytes: &[u8]) -> Poll<Result<ServerMessage, Error>> {
    let mut reader = reader();
    reader.feed(bytes);
    let message = reader.message();
    assert_eq!(reader.buffered(), 0);
    message
}

#[test]
fn sync_flush_and_terminate_are_bare_frames() {
    assert_eq!(written(vec![ClientMessage::Sync]), vec![0x53, 0, 0, 0, 4]);
    assert_eq!(written(vec![ClientMessage::Flush]), vec![0x48, 0, 0, 0, 4]);
    assert_eq!(written(vec![ClientMessage::Terminate]), vec![0x58, 0, 0, 0, 4]);
    assert_eq!(parsed(&written(vec![ClientMessage::Sync])), request::ClientMessage::Sync);
    assert_eq!(parsed(&written(vec![ClientMessage::Flush])), request::ClientMessage::Flush);
    assert_eq!(parsed(&written(vec![ClientMessage::Terminate])), request::ClientMessage::Terminate);
}

#[test]
fn execute_script_wire_form() {
    let bytes = written(vec![ClientMessage::ExecuteScript { script_text: "SELECT é".to_string() }]);
    let mut expected = vec![0x51, 0, 0, 0, 19, 0, 0, 0, 0, 0, 9];
    expected.extend_from_slice("SELECT é".as_bytes());
    assert_eq!(bytes, expected);
    assert_eq!(
        parsed(&bytes),
        request::ClientMessage::ExecuteScript(request::ExecuteScript {
            headers: HashMap::new(),
            script_text: "SELECT é".to_string(),
        })
    );
}

#[test]
fn prepare_wire_form() {
    let bytes = written(vec![ClientMessage::Prepare {
        io_format: IoFormat::Binary,
        expected_cardinality: Cardinality::Many,
        statement_name: b"s".to_vec(),
        command_text: "SELECT 1".to_string(),
    }]);
    let mut expected = vec![0x50, 0, 0, 0, 25, 0, 0, 0x62, 0x6d, 0, 0, 0, 1, b's', 0, 0, 0, 8];
    expected.extend_from_slice(b"SELECT 1");
    assert_eq!(bytes, expected);
    let formats = [
        (IoFormat::Binary, request::IoFormat::Binary, 0x62u8),
        (IoFormat::Json, request::IoFormat::Json, 0x6a),
        (IoFormat::JsonElements, request::IoFormat::JsonElements, 0x4a),
    ];
    let cardinalities = [
        (Cardinality::NoResult, request::Cardinality::NoResult, 0x6eu8),
        (Cardinality::AtMostOne, request::Cardinality::AtMostOne, 0x6f),
        (Cardinality::One, request::Cardinality::One, 0x41),
        (Cardinality::Many, request::Cardinality::Many, 0x6d),
    ];
    for (io_format, wire_format, format_byte) in formats {
        for (cardinality, wire_cardinality, cardinality_byte) in cardinalities {
            let bytes = written(vec![ClientMessage::Prepare {
                io_format,
                expected_cardinality: cardinality,
                statement_name: Vec::new(),
                command_text: "SELECT 2".to_string(),
            }]);
            assert_eq!(bytes[7], format_byte);
            assert_eq!(bytes[8], cardinality_byte);
            assert_eq!(
                parsed(&bytes),
                request::ClientMessage::Prepare(request::Prepare {
                    headers: HashMap::new(),
                    io_format: wire_format,
                    expected_cardinality: wire_cardinality,
                    statement_name: Bytes::new(),
                    command_text: "SELECT 2".to_string(),
                })
            );
        }
    }
}

#[test]
fn describe_wire_form() {
    let bytes = written(vec![ClientMessage::DescribeStatement { statement_name: b"ab".to_vec() }]);
    assert_eq!(bytes, vec![0x44, 0, 0, 0, 13, 0, 0, 0x54, 0, 0, 0, 2, b'a', b'b']);
    let bytes = written(vec![ClientMessage::DescribeStatement { statement_name: Vec::new() }]);
    assert_eq!(bytes, vec![0x44, 0, 0, 0, 11, 0, 0, 0x54, 0, 0, 0, 0]);
}

#[test]
fn execute_wire_form() {
    let bytes = written(vec![ClientMessage::Execute {
        statement_name: b"n".to_vec(),
        arguments: vec![1, 2, 3],
    }]);
    assert_eq!(bytes, vec![0x45, 0, 0, 0, 18, 0, 0, 0, 0, 0, 1, b'n', 0, 0, 0, 3, 1, 2, 3]);
    assert_eq!(
        parsed(&bytes),
        request::ClientMessage::Execute(request::Execute {
            headers: HashMap::new(),
            statement_name: Bytes::from_static(b"n"),
            arguments: Bytes::from_static(&[1, 2, 3]),
        })
    );
}

#[test]
fn batch_is_written_in_order_into_cleared_buffer() {
    let mut writer = Writer::new(ProtocolVersion::new(0, 12));
    assert_eq!(writer.send_messages(&vec![ClientMessage::Terminate]), Ok(()));
    assert_eq!(writer.send_messages(&vec![ClientMessage::Flush, ClientMessage::Sync]), Ok(()));
    assert_eq!(writer.pending(), &vec![0x48, 0, 0, 0, 4, 0x53, 0, 0, 0, 4]);
    assert_eq!(writer.send_messages(&Vec::new()), Ok(()));
    assert!(writer.pending().is_empty());
    assert_eq!(writer.send_messages(&vec![ClientMessage::Sync]), Ok(()));
    writer.flushed();
    assert!(writer.pending().is_empty());
    assert!(!writer.is_broken());
    writer.fail();
    assert!(writer.is_broken());
}

#[test]
fn long_frames_keep_their_length() {
    let text = "x".repeat(70_000);
    let bytes = written(vec![ClientMessage::ExecuteScript { script_text: text.clone() }]);
    assert_eq!(bytes.len(), 70_011);
    assert_eq!(&bytes[1..5], &70_010u32.to_be_bytes());
    assert_eq!(&bytes[7..11], &70_000u32.to_be_bytes());
}

#[test]
fn ready_for_command_is_decoded_and_recorded() {
    for (state, expected) in [
        (wire::TransactionState::NotInTransaction, TransactionState::NotInTransaction),
        (wire::TransactionState::InTransaction, TransactionState::InTransaction),
        (wire::TransactionState::InFailedTransaction, TransactionState::InFailedTransaction),
    ] {
        let bytes = frame(wire::ServerMessage::ReadyForCommand(wire::ReadyForCommand {
            headers: HashMap::new(),
            transaction_state: state,
        }));
        let mut reader = Reader::new(ProtocolVersion::new(0, 12), TransactionState::InTransaction);
        reader.feed(&bytes);
        assert_eq!(reader.message(), Poll::Ready(Ok(ServerMessage::ReadyForCommand(expected))));
        assert_eq!(reader.transaction_state(), expected);
    }
    assert_eq!(read(&[0x5a, 0, 0, 0, 7, 0, 0, 0x49]), Poll::Ready(Ok(ServerMessage::ReadyForCommand(TransactionState::NotInTransaction))));
    assert_eq!(read(&[0x5a, 0, 0, 0, 7, 0, 0, 0x00]), Poll::Ready(Err(Error::ProtocolEncoding)));
}

#[test]
fn command_complete_keeps_status() {
    let mut headers = HashMap::new();
    headers.insert(1u16, Bytes::from_static(b"ignored"));
    let bytes = frame(wire::ServerMessage::CommandComplete(wire::CommandComplete {
        headers,
        status_data: Bytes::from_static(b"SELECT"),
    }));
    assert_eq!(read(&bytes), Poll::Ready(Ok(ServerMessage::CommandComplete(b"SELECT".to_vec()))));
}

#[test]
fn data_keeps_chunks_in_order() {
    let bytes = frame(wire::ServerMessage::Data(wire::Data {
        data: vec![Bytes::from_static(b"one"), Bytes::new(), Bytes::from_static(b"three")],
    }));
    assert_eq!(
        read(&bytes),
        Poll::Ready(Ok(ServerMessage::Data(vec![b"one".to_vec(), Vec::new(), b"three".to_vec()])))
    );
    assert_eq!(read(&[0x44, 0, 0, 0, 6, 0, 0]), Poll::Ready(Ok(ServerMessage::Data(Vec::new()))));
    assert_eq!(read(&[0x44, 0, 0, 0, 6, 0, 1]), Poll::Ready(Err(Error::ProtocolEncoding)));
}

#[test]
fn error_response_keeps_every_field() {
    let mut attributes = HashMap::new();
    attributes.insert(2u16, Bytes::from_static(b"hint"));
    attributes.insert(1u16, Bytes::from_static(b"details"));
    let bytes = frame(wire::ServerMessage::ErrorResponse(wire::ErrorResponse {
        severity: wire::ErrorSeverity::Fatal,
        code: 0x0500_0000,
        message: "it broke".to_string(),
        attributes,
    }));
    match read(&bytes) {
        Poll::Ready(Ok(ServerMessage::ErrorResponse(e))) => {
            assert_eq!(e.severity, 200);
            assert_eq!(e.code, 0x0500_0000);
            assert_eq!(e.message, "it broke");
            let attributes: Vec<(u16, Vec<u8>)> = e.attributes.into_iter().collect();
            assert_eq!(attributes, vec![(1, b"details".to_vec()), (2, b"hint".to_vec())]);
        }
        other => panic!("unexpected {:?}", other),
    }
}

#[test]
fn description_keeps_descriptors() {
    let bytes = frame(wire::ServerMessage::CommandDataDescription(wire::CommandDataDescription {
        proto: version(),
        headers: HashMap::new(),
        result_cardinality: edgedb_protocol::common::Cardinality::AtMostOne,
        input_typedesc_id: Uuid::from_u128(0xFF),
        input_typedesc: Bytes::from_static(b"in"),
        output_typedesc_id: Uuid::from_u128(0x105),
        output_typedesc: Bytes::from_static(b"out"),
    }));
    match read(&bytes) {
        Poll::Ready(Ok(ServerMessage::CommandDataDescription(d))) => {
            assert_eq!(d.result_cardinality, 0x6f);
            assert_eq!(d.input_typedesc_id, Uuid::from_u128(0xFF).as_bytes().to_vec());
            assert_eq!(d.input_typedesc, b"in".to_vec());
            assert_eq!(d.output_typedesc_id, Uuid::from_u128(0x105).as_bytes().to_vec());
            assert_eq!(d.output_typedesc, b"out".to_vec());
        }
        other => panic!("unexpected {:?}", other),
    }
}

#[test]
fn prepare_complete_is_decoded() {
    let bytes = frame(wire::ServerMessage::PrepareComplete(wire::PrepareComplete {
        headers: HashMap::new(),
        cardinality: edgedb_protocol::common::Cardinality::One,
        input_typedesc_id: Uuid::from_u128(1),
        output_typedesc_id: Uuid::from_u128(2),
    }));
    assert_eq!(read(&bytes), Poll::Ready(Ok(ServerMessage::PrepareComplete)));
    assert_eq!(read(&[0x31, 0, 0, 0, 6, 0, 0]), Poll::Ready(Err(Error::ProtocolEncoding)));
}

#[test]
fn other_messages_keep_their_code() {
    let bytes = frame(wire::ServerMessage::ParameterStatus(wire::ParameterStatus {
        name: Bytes::from_static(b"name"),
        value: Bytes::from_static(b"value"),
    }));
    assert_eq!(read(&bytes), Poll::Ready(Ok(ServerMessage::Other(0x53))));
    let bytes = frame(wire::ServerMessage::LogMessage(wire::LogMessage {
        severity: wire::MessageSeverity::Warning,
        code: 1,
        text: "careful".to_string(),
        attributes: HashMap::new(),
    }));
    assert_eq!(read(&bytes), Poll::Ready(Ok(ServerMessage::Other(0x4c))));
    // A code that the protocol does not know is a message like any other.
    assert_eq!(read(&[0x99, 0, 0, 0, 4]), Poll::Ready(Ok(ServerMessage::Other(0x99))));
    assert_eq!(read(&[0x99, 0, 0, 0, 6, 1, 2]), Poll::Ready(Ok(ServerMessage::Other(0x99))));
}

#[test]
fn other_messages_that_do_not_decode_are_encoding_errors() {
    // A log message without its body.
    assert_eq!(read(&[0x4c, 0, 0, 0, 4]), Poll::Ready(Err(Error::ProtocolEncoding)));
    // A parameter whose value runs past the frame.
    assert_eq!(
        read(&[0x53, 0, 0, 0, 13, 0, 0, 0, 1, b'n', 0, 0, 0, 9]),
        Poll::Ready(Err(Error::ProtocolEncoding))
    );
    // Key data that is too short.
    assert_eq!(read(&[0x4b, 0, 0, 0, 6, 1, 2]), Poll::Ready(Err(Error::ProtocolEncoding)));
}

#[test]
fn handshake_messages_are_messages_like_any_other() {
    let mut headers = HashMap::new();
    headers.insert(7u16, Bytes::from_static(b"value"));
    let mut extensions = HashMap::new();
    extensions.insert("one".to_string(), headers);
    extensions.insert("two".to_string(), HashMap::new());
    let bytes = frame(wire::ServerMessage::ServerHandshake(wire::ServerHandshake {
        major_ver: 0,
        minor_ver: 12,
        extensions,
    }));
    assert_eq!(read(&bytes), Poll::Ready(Ok(ServerMessage::Other(0x76))));
    assert_eq!(
        read(&frame(wire::ServerMessage::Authentication(wire::Authentication::Ok))),
        Poll::Ready(Ok(ServerMessage::Other(0x52)))
    );
    let bytes = frame(wire::ServerMessage::Authentication(wire::Authentication::Sasl {
        methods: vec!["SCRAM-SHA-256".to_string(), String::new()],
    }));
    assert_eq!(read(&bytes), Poll::Ready(Ok(ServerMessage::Other(0x52))));
    let bytes = frame(wire::ServerMessage::Authentication(wire::Authentication::SaslFinal {
        data: Bytes::from_static(b"done"),
    }));
    assert_eq!(read(&bytes), Poll::Ready(Ok(ServerMessage::Other(0x52))));
}

#[test]
fn handshake_messages_that_end_too_early_are_encoding_errors() {
    // A handshake without its version numbers.
    assert_eq!(read(&[0x76, 0, 0, 0, 5, 9]), Poll::Ready(Err(Error::ProtocolEncoding)));
    // One extension, called "x", that announces a header entry and ends.
    assert_eq!(
        read(&[0x76, 0, 0, 0, 17, 0, 0, 0, 12, 0, 1, 0, 0, 0, 1, b'x', 0, 1]),
        Poll::Ready(Err(Error::ProtocolEncoding))
    );
    // The same with one byte of the key.
    assert_eq!(
        read(&[0x76, 0, 0, 0, 18, 0, 0, 0, 12, 0, 1, 0, 0, 0, 1, b'x', 0, 1, 0]),
        Poll::Ready(Err(Error::ProtocolEncoding))
    );
    // The key is there, the value is not.
    assert_eq!(
        read(&[0x76, 0, 0, 0, 19, 0, 0, 0, 12, 0, 1, 0, 0, 0, 1, b'x', 0, 1, 0, 7]),
        Poll::Ready(Err(Error::ProtocolEncoding))
    );
    // The second of two entries is missing.
    assert_eq!(
        read(&[
            0x76, 0, 0, 0, 23, 0, 0, 0, 12, 0, 1, 0, 0, 0, 1, b'x', 0, 2, 0, 7, 0, 0, 0, 0,
        ]),
        Poll::Ready(Err(Error::ProtocolEncoding))
    );
    // With both entries the handshake is whole.
    assert_eq!(
        read(&[
            0x76, 0, 0, 0, 29, 0, 0, 0, 12, 0, 1, 0, 0, 0, 1, b'x', 0, 2, 0, 7, 0, 0, 0, 0, 0, 8,
            0, 0, 0, 0,
        ]),
        Poll::Ready(Ok(ServerMessage::Other(0x76)))
    );
    // An extension whose name is not text.
    assert_eq!(
        read(&[0x76, 0, 0, 0, 17, 0, 0, 0, 12, 0, 1, 0, 0, 0, 1, 0xff, 0, 0]),
        Poll::Ready(Err(Error::ProtocolEncoding))
    );
}

#[test]
fn authentication_that_ends_too_early_is_an_encoding_error() {
    // No status at all.
    assert_eq!(read(&[0x52, 0, 0, 0, 4]), Poll::Ready(Err(Error::ProtocolEncoding)));
    // More methods than any frame could hold.
    assert_eq!(
        read(&[0x52, 0, 0, 0, 12, 0, 0, 0, 0x0a, 0xff, 0xff, 0xff, 0xff]),
        Poll::Ready(Err(Error::ProtocolEncoding))
    );
    // Two methods announced, room for one.
    assert_eq!(
        read(&[0x52, 0, 0, 0, 16, 0, 0, 0, 0x0a, 0, 0, 0, 2, 0, 0, 0, 0]),
        Poll::Ready(Err(Error::ProtocolEncoding))
    );
    // One method announced, and its name runs past the frame.
    assert_eq!(
        read(&[0x52, 0, 0, 0, 16, 0, 0, 0, 0x0a, 0, 0, 0, 1, 0, 0, 0, 9]),
        Poll::Ready(Err(Error::ProtocolEncoding))
    );
    // One method with an empty name.
    assert_eq!(
        read(&[0x52, 0, 0, 0, 16, 0, 0, 0, 0x0a, 0, 0, 0, 1, 0, 0, 0, 0]),
        Poll::Ready(Ok(ServerMessage::Other(0x52)))
    );
    // A status that the protocol does not know.
    assert_eq!(
        read(&[0x52, 0, 0, 0, 8, 0, 0, 0, 0x63]),
        Poll::Ready(Err(Error::ProtocolEncoding))
    );
}

#[test]
fn frame_shorter_than_its_header_is_an_encoding_error() {
    for length in 0u8..4 {
        let mut reader = reader();
        reader.feed(&[0x5a, 0, 0, 0, length, 0x49, 0x49]);
        assert_eq!(reader.message(), Poll::Ready(Err(Error::ProtocolEncoding)));
        assert_eq!(reader.buffered(), 6 - length as usize);
    }
}

#[test]
fn reader_waits_for_whole_frames() {
    let bytes = frame(wire::ServerMessage::CommandComplete(wire::CommandComplete {
        headers: HashMap::new(),
        status_data: Bytes::from_static(b"OK"),
    }));
    let mut reader = reader();
    assert_eq!(reader.message(), Poll::Pending(Wait::Receive));
    for (i, byte) in bytes.iter().enumerate() {
        assert_eq!(reader.message(), Poll::Pending(Wait::Receive));
        assert_eq!(reader.buffered(), i);
        reader.feed(&[*byte]);
    }
    reader.feed(&[0x5a]);
    assert_eq!(reader.message(), Poll::Ready(Ok(ServerMessage::CommandComplete(b"OK".to_vec()))));
    assert_eq!(reader.buffered(), 1);
    assert_eq!(reader.message(), Poll::Pending(Wait::Receive));
}

#[test]
fn reader_reports_faults_once_buffer_is_exhausted() {
    let bytes = frame(wire::ServerMessage::Data(wire::Data { data: Vec::new() }));
    for (fault, error) in [
        (Fault::Eos, Error::ClientConnectionEos),
        (Fault::Broken, Error::ClientConnection),
        (Fault::TimedOut, Error::ClientConnectionTimeout),
    ] {
        assert_eq!(fault.error(), error);
        let mut reader = reader();
        reader.feed(&bytes);
        reader.feed(&bytes[..3]);
        reader.interrupt(fault);
        assert_eq!(reader.message(), Poll::Ready(Ok(ServerMessage::Data(Vec::new()))));
        assert_eq!(reader.message(), Poll::Ready(Err(error.clone())));
        assert_eq!(reader.message(), Poll::Ready(Err(error)));
        assert_eq!(reader.buffered(), 3);
    }
}

#[test]
fn wait_ready_skips_to_ready_for_command() {
    let mut bytes = frame(wire::ServerMessage::Data(wire::Data { data: Vec::new() }));
    bytes.extend_from_slice(&[0x99, 0, 0, 0, 4]);
    bytes.extend_from_slice(&[0x5a, 0, 0, 0, 7, 0, 0, 0x54]);
    bytes.extend_from_slice(&[0x5a, 0, 0, 0, 7, 0, 0, 0x45]);
    let mut reader = reader();
    reader.feed(&bytes[..bytes.len() - 9]);
    assert_eq!(reader.wait_ready(), Poll::Pending(Wait::Receive));
    assert_eq!(reader.transaction_state(), TransactionState::NotInTransaction);
    reader.feed(&bytes[bytes.len() - 9..]);
    assert_eq!(reader.wait_ready(), Poll::Ready(Ok(())));
    assert_eq!(reader.transaction_state(), TransactionState::InTransaction);
    assert_eq!(reader.buffered(), 8);
    assert_eq!(reader.wait_ready(), Poll::Ready(Ok(())));
    assert_eq!(reader.transaction_state(), TransactionState::InFailedTransaction);
    reader.feed(&[0x43, 0, 0, 0, 4]);
    assert_eq!(reader.wait_ready(), Poll::Ready(Err(Error::ProtocolEncoding)));
    reader.interrupt(Fault::Eos);
    assert_eq!(reader.wait_ready(), Poll::Ready(Err(Error::ClientConnectionEos)));
}

#[test]
fn consume_ready_records_state() {
    let mut reader = reader();
    reader.consume_ready(TransactionState::InFailedTransaction);
    assert_eq!(reader.transaction_state(), TransactionState::InFailedTransaction);
    assert_eq!(reader.protocol(), &ProtocolVersion::new(0, 12));
}

#[test]
fn statement_params_default_and_builders() {
    let mut params = StatementParams::new();
    assert_eq!(params.io_format, IoFormat::Binary);
    assert_eq!(params.cardinality, Cardinality::Many);
    params.io_format(IoFormat::Json).cardinality(Cardinality::AtMostOne);
    assert_eq!(params, StatementParams { io_format: IoFormat::Json, cardinality: Cardinality::AtMostOne });
    params.cardinality(Cardinality::NoResult);
    assert_eq!(params.io_format, IoFormat::Json);
    assert_eq!(params.cardinality, Cardinality::NoResult);
}

#[test]
fn derive_picks_decoder() {
    assert_eq!(edgedb_client::queryable::derive(ItemKind::Struct, false), Ok(Derivation::Shape));
    assert_eq!(edgedb_client::queryable::derive(ItemKind::Struct, true), Ok(Derivation::Json));
    assert_eq!(edgedb_client::queryable::derive(ItemKind::Enum, true), Ok(Derivation::Json));
    assert_eq!(edgedb_client::queryable::derive(ItemKind::Enum, false), Err(DeriveError::NotStruct));
    assert_eq!(edgedb_client::queryable::derive(ItemKind::Other, false), Err(DeriveError::NotStructOrEnum));
    assert_eq!(edgedb_client::queryable::derive(ItemKind::Other, true), Err(DeriveError::NotStructOrEnum));
    assert_eq!(DeriveError::NotStructOrEnum.message(), "can only derive Queryable for structs and enums");
    assert_eq!(DeriveError::NotStruct.message(), "can only derive Queryable for a struct in non-JSON mode");
}
