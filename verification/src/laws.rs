//! What holds of every connection, whatever the server sends.

use crate::client::{ConnectionModel, StatementParams};
use crate::sequence::{
    lemma_on_message_keeps_reader, Goal, Reply, SequenceModel, Stage, SYNC_DEADLINE,
};
use crate::errors::{Error, ServerError, Violation};
use crate::codec::{decoded_message, message_of};
use crate::message::ProtocolVersion;
use crate::message::{
    be32, be32_value, frame, max_len, sync_wire, ClientMessage, ServerMessage, TransactionState,
};
use crate::poll::{Poll, Wait};
use crate::reader::{frame_size, has_frame, lemma_message_consumes};
use crate::response::{BlobsModel, ResponseModel};
use vstd::prelude::*;

verus! {

/// Whether an operation's answer is an error after which the connection
/// must be dirty.
pub open spec fn is_fatal<T>(r: Poll<Result<T, Error>>) -> bool {
    r matches Poll::Ready(Err(e)) && !e.is_benign()
}

/// A connection that is dirty cannot be leased, and a connection that has
/// been leased cannot be leased again: at most one lease exists at a time.
pub proof fn one_lease_at_a_time(conn: ConnectionModel)
    ensures
        conn.dirty ==> conn.start_sequence() == (
            conn,
            Err::<SequenceModel, Error>(Error::ClientInconsistent),
        ),
        conn.start_sequence().1 is Ok ==> conn.start_sequence().0.dirty
            && conn.start_sequence().0.start_sequence().1 == Err::<SequenceModel, Error>(
            Error::ClientInconsistent,
        ),
{
}

/// The lease comes back only through a clean end: every way of opening an
/// exchange either refuses a dirty connection and leaves it as it is, or
/// leaves the connection dirty.
pub proof fn opening_leaves_connection_dirty(
    conn: ConnectionModel,
    request: Seq<char>,
    bld: StatementParams,
    goal: Goal,
)
    ensures
        conn.execute(request).0.dirty,
        conn.query(request, bld, goal).0.dirty,
        conn.terminate().0.dirty,
        conn.dirty ==> conn.execute(request).1 == Err::<SequenceModel, Error>(Error::ClientInconsistent)
            && conn.query(request, bld, goal).1 == Err::<SequenceModel, Error>(Error::ClientInconsistent)
            && conn.terminate().1 == Err::<SequenceModel, Error>(Error::ClientInconsistent),
{
}

/// A lease is the lease on the connection that handed it out, which is
/// dirty from then on; no other connection takes it for its own.
pub proof fn lease_is_taken_on_its_connection(
    conn: ConnectionModel,
    other: ConnectionModel,
    request: Seq<char>,
    bld: StatementParams,
    goal: Goal,
)
    requires
        other.id != conn.id,
    ensures
        conn.start_sequence().1 matches Ok(seq) ==> conn.start_sequence().0.leased_to(seq)
            && !other.leased_to(seq),
        conn.execute(request).1 matches Ok(seq) ==> conn.execute(request).0.leased_to(seq)
            && !other.leased_to(seq),
        conn.query(request, bld, goal).1 matches Ok(seq) ==> conn.query(
            request,
            bld,
            goal,
        ).0.leased_to(seq) && !other.leased_to(seq),
        conn.terminate().1 matches Ok(seq) ==> conn.terminate().0.leased_to(seq)
            && !other.leased_to(seq),
{
}

/// A live lease stays the lease on its connection for as long as its
/// exchange is driven: the connection is the one it was taken on, and it
/// is dirty until the lease ends.
pub proof fn lease_stays_with_its_connection(seq: SequenceModel, conn: ConnectionModel)
    requires
        conn.leased_to(seq),
    ensures
        seq.spec_poll(conn).1.leased_to(seq.spec_poll(conn).0),
        seq.spec_poll(conn).0.owner == seq.owner,
        seq.spec_poll(conn).1.id == conn.id,
    decreases conn.reader.buf.len(),
{
    let (taken, m) = conn.next_message();
    if !(seq.stage is Idle) && !(seq.stage is Encoding) {
        if let Poll::Ready(Ok(msg)) = m {
            lemma_on_message_keeps_reader(seq, taken, msg);
            let (after, next, out) = seq.spec_on_message(taken, msg);
            if out is None && next.reader.buf.len() < conn.reader.buf.len() {
                lease_stays_with_its_connection(after, next);
            }
        }
    }
}

/// What an exchange passes over, it keeps for its caller: while a script
/// runs towards its completion, a message that is neither the completion
/// nor an error adds its code to what the caller can take, and changes
/// nothing else.
pub proof fn passed_over_message_is_kept(
    seq: SequenceModel,
    conn: ConnectionModel,
    msg: ServerMessage,
)
    requires
        seq.stage == (Stage::Draining { deny: false }),
        seq.goal == Goal::Script,
        !(msg is CommandComplete),
        !(msg is ErrorResponse),
    ensures
        seq.spec_on_message(conn, msg) == (
            SequenceModel { passed: seq.passed.push(msg.spec_code()), ..seq },
            conn,
            None::<Poll<Result<Reply, Error>>>,
        ),
{
}

/// After a message could not be taken, the connection is dirty.
pub proof fn failed_message_leaves_connection_dirty(conn: ConnectionModel)
    ensures
        conn.next_message().1 matches Poll::Ready(Err(_)) ==> conn.next_message().0.dirty,
{
}

/// After a batch could not be sent, a query could not be started, or its
/// arguments could not be sent, the connection is dirty.
pub proof fn failed_start_leaves_connection_dirty(
    seq: SequenceModel,
    conn: ConnectionModel,
    request: Seq<char>,
    bld: StatementParams,
    goal: Goal,
    encoded: Result<Vec<u8>, Error>,
    wire: Option<Seq<u8>>,
)
    ensures
        conn.send(wire).1 is Err ==> conn.send(wire).0.dirty,
        seq.spec_begin(conn, request, bld, goal).2 is Err ==> seq.spec_begin(
            conn,
            request,
            bld,
            goal,
        ).1.dirty,
        seq.spec_arguments(conn, encoded).2 is Err ==> seq.spec_arguments(conn, encoded).1.dirty,
{
}

/// After an exchange has ended in an error that is not the server's
/// answer to the request, the connection is dirty.
pub proof fn failed_exchange_leaves_connection_dirty(seq: SequenceModel, conn: ConnectionModel)
    ensures
        is_fatal(seq.spec_poll(conn).2) ==> seq.spec_poll(conn).1.dirty,
    decreases conn.reader.buf.len(),
{
    let (taken, m) = conn.next_message();
    if !(seq.stage is Idle) && !(seq.stage is Encoding) {
        if let Poll::Ready(Ok(msg)) = m {
            let (after, next, out) = seq.spec_on_message(taken, msg);
            if out is None && next.reader.buf.len() < conn.reader.buf.len() {
                failed_exchange_leaves_connection_dirty(after, next);
            }
        }
    }
}

/// Whether an exchange has ended in the server's answer to the request:
/// its completion, its readiness, or its own error.
pub open spec fn is_answer(r: Poll<Result<Reply, Error>>) -> bool {
    match r {
        Poll::Ready(Ok(reply)) => reply is Status || reply is Ready,
        Poll::Ready(Err(e)) => e is ErrorResponse || e is NoResultExpected,
        Poll::Pending(_) => false,
    }
}

/// An exchange that ends in the server's answer has ended cleanly: the
/// lease is over, nothing is in progress, and the connection is
/// consistent.
pub proof fn answered_exchange_leaves_connection_consistent(seq: SequenceModel, conn: ConnectionModel)
    ensures
        is_answer(seq.spec_poll(conn).2) ==> !seq.spec_poll(conn).1.dirty && !seq.spec_poll(
            conn,
        ).0.active && seq.spec_poll(conn).0.stage is Idle,
    decreases conn.reader.buf.len(),
{
    let (taken, m) = conn.next_message();
    if !(seq.stage is Idle) && !(seq.stage is Encoding) {
        if let Poll::Ready(Ok(msg)) = m {
            let (after, next, out) = seq.spec_on_message(taken, msg);
            if out is None && next.reader.buf.len() < conn.reader.buf.len() {
                answered_exchange_leaves_connection_consistent(after, next);
            }
        }
    }
}

/// After a row stream has handed out an error that is not the server's
/// answer to the request, the connection is dirty.
pub proof fn failed_stream_leaves_connection_dirty<T, S>(
    rows: ResponseModel<T, S>,
    conn: ConnectionModel,
)
    ensures
        rows.next(conn).2 matches Poll::Ready(Some(Err(e))) && !e.is_benign() ==> rows.next(
            conn,
        ).1.dirty,
        is_fatal(rows.skip_remaining(conn).2) ==> rows.skip_remaining(conn).1.dirty,
{
    failed_exchange_leaves_connection_dirty(rows.seq, conn);
    failed_exchange_leaves_connection_dirty(rows.seq.at(Stage::Draining { deny: false }), conn);
}

/// After a single-row verb has ended in an error that is not the server's
/// answer to the request, the connection is dirty. The one exception is
/// the extra row that the strict verb reports: it has drained the stream
/// first, so the exchange has ended cleanly.
pub proof fn failed_single_row_leaves_connection_dirty<T, S>(
    rows: ResponseModel<T, S>,
    conn: ConnectionModel,
)
    ensures
        is_fatal(rows.query_row(conn).2) && rows.query_row(conn).2 != Poll::<
            Result<T, Error>,
        >::Ready(Err(Error::Protocol(Violation::ExtraRow))) ==> rows.query_row(conn).1.dirty,
        is_fatal(rows.query_row_opt(conn).2) ==> rows.query_row_opt(conn).1.dirty,
    decreases rows.distance(),
{
    failed_stream_leaves_connection_dirty(rows, conn);
    let (rest, next, r) = rows.next(conn);
    if let Poll::Ready(Some(Ok(row))) = r {
        if !rest.extra {
            if rest.held is None {
                failed_single_row_leaves_connection_dirty(
                    ResponseModel { held: Some(row), ..rest },
                    next,
                );
            } else if !rows.extra {
                failed_single_row_leaves_connection_dirty(ResponseModel { extra: true, ..rest }, next);
            }
        }
    }
}

/// After a collection of rows has ended in an error that is not the
/// server's answer to the request, the connection is dirty.
pub proof fn failed_collection_leaves_connection_dirty(blobs: BlobsModel, conn: ConnectionModel)
    ensures
        is_fatal(blobs.poll(conn).2) ==> blobs.poll(conn).1.dirty,
    decreases conn.reader.buf.len(),
{
    failed_exchange_leaves_connection_dirty(blobs.seq, conn);
    let (seq, next, r) = blobs.seq.spec_poll(conn);
    if let Poll::Ready(Ok(Reply::Data(chunks))) = r {
        if next.reader.buf.len() < conn.reader.buf.len() {
            failed_collection_leaves_connection_dirty(
                BlobsModel { seq, data: blobs.data + chunks@ },
                next,
            );
        }
    }
}

/// The transaction state of a well-formed connection is the one that the
/// last `ReadyForCommand` reported.
pub proof fn state_is_last_reported(conn: ConnectionModel)
    requires
        conn.wf(),
    ensures
        conn.reader.transaction_state == conn.reader.ready_log.last(),
{
}

/// Taking a message keeps the connection well-formed, only ever adds to
/// the reports, and adds one exactly when the message is a
/// `ReadyForCommand`.
pub proof fn message_follows_reports(conn: ConnectionModel)
    requires
        conn.wf(),
    ensures
        conn.next_message().0.wf(),
        conn.reader.ready_log.is_prefix_of(conn.next_message().0.reader.ready_log),
        conn.next_message().1 matches Poll::Ready(Ok(ServerMessage::ReadyForCommand(state)))
            ==> conn.next_message().0.reader.ready_log == conn.reader.ready_log.push(state),
        !(conn.next_message().1 matches Poll::Ready(Ok(ServerMessage::ReadyForCommand(_))))
            ==> conn.next_message().0.reader.ready_log == conn.reader.ready_log,
{
    lemma_message_consumes(conn.reader);
}

/// Driving an exchange keeps the connection well-formed and only ever adds
/// to the reports. An exchange that hands out a completion status, or
/// that the server is ready, has taken a `ReadyForCommand` to get there:
/// the transaction state is the one which that message reported.
pub proof fn exchange_follows_reports(seq: SequenceModel, conn: ConnectionModel)
    requires
        conn.wf(),
    ensures
        seq.spec_poll(conn).1.wf(),
        conn.reader.ready_log.is_prefix_of(seq.spec_poll(conn).1.reader.ready_log),
        (seq.spec_poll(conn).2 matches Poll::Ready(Ok(reply)) && (reply is Status || reply is Ready))
            ==> seq.spec_poll(conn).1.reader.ready_log.len() > conn.reader.ready_log.len(),
    decreases conn.reader.buf.len(),
{
    message_follows_reports(conn);
    let (taken, m) = conn.next_message();
    if !(seq.stage is Idle) && !(seq.stage is Encoding) {
        if let Poll::Ready(Ok(msg)) = m {
            lemma_on_message_keeps_reader(seq, taken, msg);
            let (after, next, out) = seq.spec_on_message(taken, msg);
            if out is None && next.reader.buf.len() < conn.reader.buf.len() {
                exchange_follows_reports(after, next);
            }
        }
    }
}

/// Leasing a connection, opening an exchange on it and sending on it keep
/// the connection well-formed: none of them touches the transaction state.
pub proof fn opening_follows_reports(
    seq: SequenceModel,
    conn: ConnectionModel,
    request: Seq<char>,
    bld: StatementParams,
    goal: Goal,
    encoded: Result<Vec<u8>, Error>,
    wire: Option<Seq<u8>>,
)
    requires
        conn.wf(),
    ensures
        conn.start_sequence().0.wf(),
        conn.execute(request).0.wf(),
        conn.query(request, bld, goal).0.wf(),
        conn.terminate().0.wf(),
        conn.send(wire).0.wf(),
        seq.spec_begin(conn, request, bld, goal).1.wf(),
        seq.spec_arguments(conn, encoded).1.wf(),
        conn.start_sequence().0.reader == conn.reader,
        conn.execute(request).0.reader == conn.reader,
        conn.query(request, bld, goal).0.reader == conn.reader,
        conn.terminate().0.reader == conn.reader,
        conn.send(wire).0.reader == conn.reader,
        seq.spec_begin(conn, request, bld, goal).1.reader == conn.reader,
        seq.spec_arguments(conn, encoded).1.reader == conn.reader,
{
}

/// Pulling from a row stream, or draining it, keeps the connection
/// well-formed.
pub proof fn stream_follows_reports<T, S>(rows: ResponseModel<T, S>, conn: ConnectionModel)
    requires
        conn.wf(),
    ensures
        rows.next(conn).1.wf(),
        rows.skip_remaining(conn).1.wf(),
{
    exchange_follows_reports(rows.seq, conn);
    exchange_follows_reports(rows.seq.at(Stage::Draining { deny: false }), conn);
}

/// The strict single-row verb keeps the connection well-formed.
pub proof fn strict_verb_follows_reports<T, S>(rows: ResponseModel<T, S>, conn: ConnectionModel)
    requires
        conn.wf(),
    ensures
        rows.query_row(conn).1.wf(),
    decreases rows.distance(),
{
    stream_follows_reports(rows, conn);
    let (rest, next, r) = rows.next(conn);
    if let Poll::Ready(Some(Ok(row))) = r {
        if !rest.extra && !rows.extra {
            if rest.held is None {
                strict_verb_follows_reports(ResponseModel { held: Some(row), ..rest }, next);
            } else {
                strict_verb_follows_reports(ResponseModel { extra: true, ..rest }, next);
            }
        }
    }
}

/// The optional single-row verb keeps the connection well-formed.
pub proof fn optional_verb_follows_reports<T, S>(rows: ResponseModel<T, S>, conn: ConnectionModel)
    requires
        conn.wf(),
    ensures
        rows.query_row_opt(conn).1.wf(),
    decreases rows.distance(),
{
    stream_follows_reports(rows, conn);
    let (rest, next, r) = rows.next(conn);
    if let Poll::Ready(Some(Ok(row))) = r {
        if rest.held is None && !rest.extra {
            optional_verb_follows_reports(ResponseModel { held: Some(row), ..rest }, next);
        }
    }
}

/// Collecting rows keeps the connection well-formed.
pub proof fn collection_follows_reports(blobs: BlobsModel, conn: ConnectionModel)
    requires
        conn.wf(),
    ensures
        blobs.poll(conn).1.wf(),
    decreases conn.reader.buf.len(),
{
    exchange_follows_reports(blobs.seq, conn);
    let (seq, next, r) = blobs.seq.spec_poll(conn);
    if let Poll::Ready(Ok(Reply::Data(chunks))) = r {
        if next.reader.buf.len() < conn.reader.buf.len() {
            collection_follows_reports(BlobsModel { seq, data: blobs.data + chunks@ }, next);
        }
    }
}

/// Once a row stream has reported its end, every further pull reports the
/// end again and changes nothing.
pub proof fn end_of_stream_is_final<T, S>(rows: ResponseModel<T, S>, conn: ConnectionModel)
    requires
        rows.next(conn).2 == Poll::<Option<Result<T, Error>>>::Ready(None),
    ensures
        rows.next(conn).0.next(rows.next(conn).1) == (
            rows.next(conn).0,
            rows.next(conn).1,
            Poll::<Option<Result<T, Error>>>::Ready(None),
        ),
{
}

/// What the strict single-row verb answers on a result of these rows.
pub open spec fn single_row<T>(rows: Seq<T>) -> Result<T, Error> {
    if rows.len() == 0 {
        Err(Error::NoData)
    } else if rows.len() == 1 {
        Ok(rows[0])
    } else {
        Err(Error::Protocol(Violation::ExtraRow))
    }
}

/// The strict single-row verb on a stream whose rows are all decoded and
/// which ends behind them: it answers the sole row if and only if there is
/// exactly one, `NoData` if and only if there is none, and reports an
/// extra row, once the stream has drained, if and only if there are more.
pub proof fn single_row_verb<T, S>(rows: ResponseModel<T, S>, conn: ConnectionModel)
    requires
        rows.error is None,
        rows.held is None,
        !rows.extra,
        rows.buffer.len() <= 1 ==> (ResponseModel { buffer: Seq::empty(), ..rows }).next(conn).2
            == Poll::<Option<Result<T, Error>>>::Ready(None),
        rows.buffer.len() >= 2 ==> rows.skip_remaining(conn).2 == Poll::<Result<(), Error>>::Ready(
            Ok(()),
        ),
    ensures
        rows.query_row(conn).2 == Poll::Ready(single_row(rows.buffer)),
        rows.query_row(conn).2 is Ready,
        rows.query_row(conn).2->Ready_0 is Ok <==> rows.buffer.len() == 1,
        rows.query_row(conn).2->Ready_0 == Err::<T, Error>(Error::NoData) <==> rows.buffer.len()
            == 0,
        rows.query_row(conn).2->Ready_0 == Err::<T, Error>(Error::Protocol(Violation::ExtraRow))
            <==> rows.buffer.len() >= 2,
{
    let k = rows.buffer.len();
    if k == 0 {
        assert(rows =~= (ResponseModel { buffer: Seq::empty(), ..rows }));
    } else {
        let first = ResponseModel { buffer: rows.buffer.drop_first(), held: Some(rows.buffer[0]), ..rows };
        assert(rows.query_row(conn) == first.query_row(conn));
        if k == 1 {
            assert(first.buffer =~= Seq::<T>::empty());
            let ended = ResponseModel { buffer: Seq::empty(), ..rows };
            assert(first.next(conn).2 == ended.next(conn).2);
        } else {
            let second = ResponseModel { buffer: first.buffer.drop_first(), extra: true, ..first };
            assert(first.query_row(conn) == second.query_row(conn));
            assert(second.skip_remaining(conn).2 == rows.skip_remaining(conn).2);
        }
    }
}


/// A length that fits its field is read back as it was written.
pub proof fn length_round_trip(n: int)
    requires
        0 <= n <= max_len(),
    ensures
        be32(n).len() == 4,
        be32_value(be32(n)) == n,
{
}

/// What the writer frames, the reader takes off the buffer as one whole
/// frame, whatever follows it.
pub proof fn written_frame_is_read_whole(code: u8, payload: Seq<u8>, rest: Seq<u8>)
    requires
        payload.len() + 4 <= max_len(),
    ensures
        has_frame(frame(code, payload) + rest),
        frame_size(frame(code, payload) + rest) == Some(frame(code, payload).len() as int),
        (frame(code, payload) + rest).take(frame(code, payload).len() as int) == frame(
            code,
            payload,
        ),
        (frame(code, payload) + rest).skip(frame(code, payload).len() as int) == rest,
        frame(code, payload).len() >= 5,
        frame(code, payload)[0] == code,
{
    let n: int = (payload.len() + 4) as int;
    let whole = frame(code, payload);
    let buf = whole + rest;
    length_round_trip(n);
    assert(whole.len() == payload.len() + 5);
    assert(buf.subrange(1, 5) =~= be32(n));
    assert(buf.take(whole.len() as int) =~= whole);
    assert(buf.skip(whole.len() as int) =~= rest);
}

/// Every message that can be encoded goes out as one whole frame under
/// its own code.
pub proof fn message_is_one_frame(msg: ClientMessage, rest: Seq<u8>)
    requires
        msg.wire() is Some,
    ensures
        has_frame(msg.wire()->0 + rest),
        frame_size(msg.wire()->0 + rest) == Some(msg.wire()->0.len() as int),
        (msg.wire()->0 + rest).skip(msg.wire()->0.len() as int) == rest,
{
    match msg {
        ClientMessage::Sync => {
            written_frame_is_read_whole(0x53, Seq::empty(), rest);
        },
        ClientMessage::Flush => {
            written_frame_is_read_whole(0x48, Seq::empty(), rest);
        },
        ClientMessage::Terminate => {
            written_frame_is_read_whole(0x58, Seq::empty(), rest);
        },
        ClientMessage::ExecuteScript { script_text } => {
            let body = seq![0u8, 0u8] + crate::message::blob(
                vstd::utf8::encode_utf8(script_text@),
            );
            written_frame_is_read_whole(0x51, body, rest);
        },
        ClientMessage::Prepare { io_format, expected_cardinality, statement_name, command_text } => {
            let body = seq![0u8, 0u8, io_format.wire_byte(), expected_cardinality.wire_byte()]
                + crate::message::blob(statement_name@) + crate::message::blob(
                vstd::utf8::encode_utf8(command_text@),
            );
            written_frame_is_read_whole(0x50, body, rest);
        },
        ClientMessage::DescribeStatement { statement_name } => {
            let body = seq![0u8, 0u8, 0x54u8] + crate::message::blob(statement_name@);
            written_frame_is_read_whole(0x44, body, rest);
        },
        ClientMessage::Execute { statement_name, arguments } => {
            let body = seq![0u8, 0u8] + crate::message::blob(statement_name@)
                + crate::message::blob(arguments@);
            written_frame_is_read_whole(0x45, body, rest);
        },
    }
}


/// Whether `bytes` is exactly one frame, and one that holds `msg`.
pub open spec fn is_frame_of(conn: ConnectionModel, bytes: Seq<u8>, msg: ServerMessage) -> bool {
    &&& bytes.len() >= 5
    &&& frame_size(bytes) == Some(bytes.len() as int)
    &&& message_of(conn.reader.proto, bytes) == Ok::<ServerMessage, Error>(msg)
}

/// A frame at the head of the buffer is the next message, and what
/// follows it stays buffered.
pub proof fn frame_is_next_message(
    conn: ConnectionModel,
    bytes: Seq<u8>,
    rest: Seq<u8>,
    msg: ServerMessage,
)
    requires
        is_frame_of(conn, bytes, msg),
        conn.reader.buf == bytes + rest,
        sendable(conn),
    ensures
        conn.next_message().1 == Poll::Ready(Ok::<ServerMessage, Error>(msg)),
        conn.next_message().0.reader.buf == rest,
        conn.next_message().0.writer == conn.writer,
        conn.next_message().0.dirty == conn.dirty,
        conn.next_message().0.params == conn.params,
        conn.next_message().0.reader.proto == conn.reader.proto,
        conn.next_message().0.reader.fault == conn.reader.fault,
        match msg {
            ServerMessage::ReadyForCommand(state) => conn.next_message().0.reader
                == conn.reader.record(state).after(rest),
            _ => conn.next_message().0.reader == conn.reader.after(rest),
        },
{
    let buf = conn.reader.buf;
    let n = bytes.len() as int;
    assert(buf.subrange(1, 5) =~= bytes.subrange(1, 5));
    assert(buf.take(n) =~= bytes);
    assert(buf.skip(n) =~= rest);
}

/// Whether nothing stands between the connection and its next read: no
/// write has failed and no output waits.
pub open spec fn sendable(conn: ConnectionModel) -> bool {
    !conn.writer.broken && conn.writer.outbuf.len() == 0
}

/// A script whose completion and `ReadyForCommand` have come ends in the
/// status that the server sent, with the transaction state that it
/// reported, and leaves the connection consistent.
pub proof fn script_ends_in_its_status(
    seq: SequenceModel,
    conn: ConnectionModel,
    complete: Seq<u8>,
    ready: Seq<u8>,
    status: Vec<u8>,
    state: TransactionState,
)
    requires
        seq.stage == (Stage::Draining { deny: false }),
        sendable(conn),
        is_frame_of(conn, complete, ServerMessage::CommandComplete(status)),
        is_frame_of(conn, ready, ServerMessage::ReadyForCommand(state)),
        conn.reader.buf == complete + ready,
    ensures
        seq.spec_poll(conn).0 == seq.ended(),
        seq.spec_poll(conn).1 == (ConnectionModel {
            reader: conn.reader.record(state).after(Seq::empty()),
            dirty: false,
            ..conn
        }),
        seq.spec_poll(conn).2 == Poll::Ready(Ok::<Reply, Error>(Reply::Status(status))),
{
    reveal_with_fuel(SequenceModel::spec_poll, 3);
    frame_is_next_message(conn, complete, ready, ServerMessage::CommandComplete(status));
    let first = conn.next_message().0;
    let settling = seq.at(Stage::Settling { outcome: Ok(status), deny: false });
    assert(seq.spec_on_message(first, ServerMessage::CommandComplete(status)) == (
        settling,
        first,
        None::<Poll<Result<Reply, Error>>>,
    ));
    assert(ready + Seq::<u8>::empty() =~= ready);
    frame_is_next_message(first, ready, Seq::empty(), ServerMessage::ReadyForCommand(state));
    assert(seq.spec_poll(conn) == settling.spec_poll(first));
}

/// A query that the server refuses at its first step resynchronises. The
/// engine queues `Sync`; once that is written it waits for
/// `ReadyForCommand` under the deadline; and once that has come it ends in
/// the server's error, with the transaction state that was reported and
/// the connection consistent.
pub proof fn refused_query_resynchronises(
    seq: SequenceModel,
    conn: ConnectionModel,
    refusal: Seq<u8>,
    ready: Seq<u8>,
    e: ServerError,
    state: TransactionState,
)
    requires
        seq.stage == Stage::Preparing,
        sendable(conn),
        conn.reader.fault is None,
        is_frame_of(conn, refusal, ServerMessage::ErrorResponse(e)),
        is_frame_of(conn, ready, ServerMessage::ReadyForCommand(state)),
        conn.reader.buf == refusal,
    ensures
        ({
            let (waiting, synced, first) = seq.spec_poll(conn);
            let (ended, cleaned, last) = waiting.spec_poll(synced.sent().received(ready));
            &&& first == Poll::<Result<Reply, Error>>::Pending(Wait::Send)
            &&& synced.writer.outbuf == sync_wire()
            &&& waiting.spec_poll(synced.sent()).2 == Poll::<Result<Reply, Error>>::Pending(
                Wait::ReceiveWithin(SYNC_DEADLINE),
            )
            &&& last == Poll::Ready(Err::<Reply, Error>(Error::ErrorResponse(e)))
            &&& ended == seq.ended()
            &&& !cleaned.dirty
            &&& cleaned.reader.transaction_state == state
        }),
{
    reveal_with_fuel(SequenceModel::spec_poll, 3);
    assert(refusal + Seq::<u8>::empty() =~= refusal);
    frame_is_next_message(conn, refusal, Seq::empty(), ServerMessage::ErrorResponse(e));
    let (waiting, synced, first) = seq.spec_poll(conn);
    assert(sync_wire().len() == 5);
    assert(synced.reader.buf + ready =~= ready);
    assert(ready + Seq::<u8>::empty() =~= ready);
    frame_is_next_message(
        synced.sent().received(ready),
        ready,
        Seq::empty(),
        ServerMessage::ReadyForCommand(state),
    );
}

/// A message that has no place at the first two steps of a query ends the
/// exchange as out of order, without any attempt to recover, and leaves
/// the connection dirty: the next request is refused.
pub proof fn misplaced_message_ends_query(
    seq: SequenceModel,
    conn: ConnectionModel,
    bytes: Seq<u8>,
    rest: Seq<u8>,
    msg: ServerMessage,
)
    requires
        sendable(conn),
        is_frame_of(conn, bytes, msg),
        conn.reader.buf == bytes + rest,
        !(msg is ErrorResponse),
        seq.stage == Stage::Preparing && !(msg is PrepareComplete) || seq.stage
            == Stage::Describing && !(msg is CommandDataDescription),
    ensures
        seq.spec_poll(conn).2 == Poll::Ready(Err::<Reply, Error>(Error::ProtocolOutOfOrder)),
        seq.spec_poll(conn).1.dirty,
        seq.spec_poll(conn).1.writer == conn.writer,
        seq.spec_poll(conn).1.start_sequence().1 == Err::<SequenceModel, Error>(
            Error::ClientInconsistent,
        ),
{
    reveal_with_fuel(SequenceModel::spec_poll, 2);
    frame_is_next_message(conn, bytes, rest, msg);
}

/// While `ReadyForCommand` is waited for, every other message is passed
/// over and its code kept for the caller, and `ReadyForCommand` ends the
/// lease cleanly with the state it reports.
pub proof fn ready_ends_wait(
    seq: SequenceModel,
    conn: ConnectionModel,
    other: Seq<u8>,
    msg: ServerMessage,
    ready: Seq<u8>,
    state: TransactionState,
)
    requires
        seq.stage == (Stage::Waiting { timed: false, error: None }),
        sendable(conn),
        is_frame_of(conn, other, msg),
        !(msg is ReadyForCommand),
        is_frame_of(conn, ready, ServerMessage::ReadyForCommand(state)),
        conn.reader.buf == other + ready,
    ensures
        seq.spec_poll(conn).2 == Poll::Ready(Ok::<Reply, Error>(Reply::Ready)),
        seq.spec_poll(conn).0 == seq.passing(msg).ended(),
        !seq.spec_poll(conn).1.dirty,
        seq.spec_poll(conn).1.reader.transaction_state == state,
        seq.spec_poll(conn).1.reader.buf == Seq::<u8>::empty(),
{
    reveal_with_fuel(SequenceModel::spec_poll, 3);
    frame_is_next_message(conn, other, ready, msg);
    let first = conn.next_message().0;
    assert(ready + Seq::<u8>::empty() =~= ready);
    frame_is_next_message(first, ready, Seq::empty(), ServerMessage::ReadyForCommand(state));
    assert(seq.spec_poll(conn) == seq.passing(msg).spec_poll(first));
}

/// While rows are due, a `Data` message hands its rows to the caller as
/// they are and the exchange stays where it is.
pub proof fn rows_are_handed_out(
    seq: SequenceModel,
    conn: ConnectionModel,
    bytes: Seq<u8>,
    rest: Seq<u8>,
    chunks: Vec<Vec<u8>>,
)
    requires
        seq.stage == Stage::Streaming,
        sendable(conn),
        is_frame_of(conn, bytes, ServerMessage::Data(chunks)),
        conn.reader.buf == bytes + rest,
    ensures
        seq.spec_poll(conn) == (
            seq,
            ConnectionModel { reader: conn.reader.after(rest), ..conn },
            Poll::Ready(Ok::<Reply, Error>(Reply::Data(chunks))),
        ),
{
    reveal_with_fuel(SequenceModel::spec_poll, 2);
    frame_is_next_message(conn, bytes, rest, ServerMessage::Data(chunks));
}

/// After `Terminate`, the end of the stream is the success, and any
/// message instead is a protocol violation. Either way the connection
/// stays dirty.
pub proof fn terminate_waits_for_end_of_stream(
    conn: ConnectionModel,
    bytes: Seq<u8>,
    msg: ServerMessage,
)
    requires
        !conn.dirty,
        !conn.writer.broken,
    ensures
        ({
            let (leased, r) = conn.terminate();
            let closing = r->Ok_0;
            let ended = leased.sent().interrupted(crate::reader::Fault::Eos);
            let answered = leased.sent().after_input(bytes);
            &&& r is Ok
            &&& closing.spec_poll(leased).2 == Poll::<Result<Reply, Error>>::Pending(Wait::Send)
            &&& leased.reader.buf.len() == 0 ==> closing.spec_poll(ended).2 == Poll::Ready(
                Ok::<Reply, Error>(Reply::Closed),
            ) && closing.spec_poll(ended).1.dirty
            &&& is_frame_of(conn, bytes, msg) ==> closing.spec_poll(answered).2 == Poll::Ready(
                Err::<Reply, Error>(Error::Protocol(Violation::UnsolicitedMessage)),
            ) && closing.spec_poll(answered).1.dirty
        }),
{
    reveal_with_fuel(SequenceModel::spec_poll, 2);
    let (leased, r) = conn.terminate();
    assert(crate::message::terminate_wire().len() == 5);
    if is_frame_of(conn, bytes, msg) {
        assert(bytes + Seq::<u8>::empty() =~= bytes);
        frame_is_next_message(leased.sent().after_input(bytes), bytes, Seq::empty(), msg);
    }
}

/// A frame that the decoder rejects is never a message: whatever its
/// code, it is an encoding error.
pub proof fn rejected_frame_is_an_encoding_error(proto: ProtocolVersion, bytes: Seq<u8>)
    requires
        bytes.len() >= 5,
        decoded_message(proto.major_ver, proto.minor_ver, bytes) is None,
    ensures
        message_of(proto, bytes) == Err::<ServerMessage, Error>(Error::ProtocolEncoding),
{
}

/// A frame that the decoder rejects ends the exchange that meets it in an
/// encoding error, wherever the exchange stands, and leaves the connection
/// dirty.
pub proof fn rejected_frame_ends_exchange(
    seq: SequenceModel,
    conn: ConnectionModel,
    bytes: Seq<u8>,
    rest: Seq<u8>,
)
    requires
        !(seq.stage is Idle),
        !(seq.stage is Encoding),
        sendable(conn),
        bytes.len() >= 5,
        frame_size(bytes) == Some(bytes.len() as int),
        conn.reader.buf == bytes + rest,
        decoded_message(conn.reader.proto.major_ver, conn.reader.proto.minor_ver, bytes) is None,
    ensures
        seq.spec_poll(conn).2 == Poll::Ready(Err::<Reply, Error>(Error::ProtocolEncoding)),
        seq.spec_poll(conn).1.dirty,
        seq.spec_poll(conn).1.reader.buf == rest,
{
    reveal_with_fuel(SequenceModel::spec_poll, 2);
    let buf = conn.reader.buf;
    let n = bytes.len() as int;
    assert(buf.subrange(1, 5) =~= bytes.subrange(1, 5));
    assert(buf.take(n) =~= bytes);
    assert(buf.skip(n) =~= rest);
}

} // verus!
