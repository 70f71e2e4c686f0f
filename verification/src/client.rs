//! A connection without its stream: what it has buffered in either
//! direction, the transaction state, and whether it can take a request.

use crate::errors::Error;
use crate::message::{
    execute_script_wire, flush_wire, prepare_wire, sync_wire, terminate_wire, wire_all,
    Cardinality, ClientMessage, IoFormat, ProtocolVersion, ServerMessage, TransactionState,
};
use crate::poll::{Poll, Wait};
use crate::reader::{Fault, Reader, ReaderModel};
use crate::sequence::{
    describe_request, lease_view, lemma_own_requests_fit, Goal, Sequence, SequenceModel, Stage,
};
use crate::writer::{lemma_wire_all_pair, Writer, WriterModel};
use vstd::prelude::*;

verus! {

/// A parameter that the server announced at the handshake.
#[derive(Clone, Debug, PartialEq, Eq)]
pub struct ServerParam {
    pub name: Vec<u8>,
    pub value: Vec<u8>,
}

/// How a statement is to be prepared.
#[derive(Clone, Copy, Debug, PartialEq, Eq, Structural)]
pub struct StatementParams {
    pub io_format: IoFormat,
    pub cardinality: Cardinality,
}

impl StatementParams {
    /// The default: binary rows, any number of them.
    pub open spec fn spec_new() -> StatementParams {
        StatementParams { io_format: IoFormat::Binary, cardinality: Cardinality::Many }
    }

    /// These parameters with another format.
    pub open spec fn with_io_format(self, fmt: IoFormat) -> StatementParams {
        StatementParams { io_format: fmt, ..self }
    }

    /// These parameters with another cardinality.
    pub open spec fn with_cardinality(self, card: Cardinality) -> StatementParams {
        StatementParams { cardinality: card, ..self }
    }

    /// The default parameters.
    #[verifier::when_used_as_spec(spec_new)]
    pub fn new() -> (p: StatementParams)
        ensures
            p == StatementParams::spec_new(),
    {
        StatementParams { io_format: IoFormat::Binary, cardinality: Cardinality::Many }
    }

    /// Sets the format in which results are asked for.
    pub fn io_format(&mut self, fmt: IoFormat) -> (r: &mut Self)
        ensures
            *r == old(self).with_io_format(fmt),
            *final(self) == *final(r),
    {
        self.io_format = fmt;
        self
    }

    /// Sets the number of rows that is asked for.
    pub fn cardinality(&mut self, card: Cardinality) -> (r: &mut Self)
        ensures
            *r == old(self).with_cardinality(card),
            *final(self) == *final(r),
    {
        self.cardinality = card;
        self
    }
}

/// The connection as a mathematical value.
#[verifier::ext_equal]
pub struct ConnectionModel {
    /// What tells this connection from every other that its owner holds.
    pub id: u64,
    pub reader: ReaderModel,
    pub writer: WriterModel,
    pub params: Seq<ServerParam>,
    /// Whether the wire may be out of step with the server.
    pub dirty: bool,
}

impl ConnectionModel {
    /// Both halves speak one protocol version, and the transaction state
    /// is the last one that the server reported.
    pub open spec fn wf(self) -> bool {
        self.reader.proto == self.writer.proto && self.reader.wf()
    }

    /// Whether `seq`, if it is a live lease, is the lease on this
    /// connection: it was taken on it, and the connection is marked dirty
    /// for as long as it lives.
    pub open spec fn leased_to(self, seq: SequenceModel) -> bool {
        seq.active ==> seq.owner == self.id && self.dirty
    }

    /// The connection marked dirty.
    pub open spec fn dirtied(self) -> ConnectionModel {
        ConnectionModel { dirty: true, ..self }
    }

    /// The connection marked consistent.
    pub open spec fn cleaned(self) -> ConnectionModel {
        ConnectionModel { dirty: false, ..self }
    }

    /// The connection after its output was written to the stream.
    pub open spec fn sent(self) -> ConnectionModel {
        ConnectionModel { writer: WriterModel { outbuf: Seq::empty(), ..self.writer }, ..self }
    }

    /// The connection after a write to the stream failed.
    pub open spec fn send_failed(self) -> ConnectionModel {
        ConnectionModel { writer: WriterModel { broken: true, ..self.writer }, ..self }
    }

    /// The connection after `bytes` were read from the stream.
    pub open spec fn received(self, bytes: Seq<u8>) -> ConnectionModel {
        ConnectionModel { reader: self.reader.after(self.reader.buf + bytes), ..self }
    }

    /// The connection with `bytes` as all of its unconsumed input.
    pub open spec fn after_input(self, bytes: Seq<u8>) -> ConnectionModel {
        ConnectionModel { reader: self.reader.after(bytes), ..self }
    }

    /// The connection after a read from the stream ended, failed or timed
    /// out.
    pub open spec fn interrupted(self, fault: Fault) -> ConnectionModel {
        ConnectionModel { reader: ReaderModel { fault: Some(fault), ..self.reader }, ..self }
    }

    /// The connection with a serialised batch in its output buffer.
    pub open spec fn queue(self, wire: Option<Seq<u8>>) -> ConnectionModel {
        ConnectionModel { writer: self.writer.send(wire).0, ..self }
    }

    /// Serialising a batch on behalf of a lease: the batch is queued, or,
    /// where it cannot be encoded, nothing is and the connection is left
    /// dirty.
    pub open spec fn send(self, wire: Option<Seq<u8>>) -> (ConnectionModel, Result<(), Error>) {
        match wire {
            Some(_) => (self.queue(wire), Ok(())),
            None => (self.queue(None).dirtied(), Err(Error::ClientEncoding)),
        }
    }

    /// Taking the next message. A failed write surfaces first; queued
    /// output has to leave before anything is read; then the reader
    /// decides. Every error marks the connection dirty.
    pub open spec fn next_message(self) -> (ConnectionModel, Poll<Result<ServerMessage, Error>>) {
        if self.writer.broken {
            (self.dirtied(), Poll::Ready(Err(Error::ClientConnection)))
        } else if self.writer.outbuf.len() > 0 {
            (self, Poll::Pending(Wait::Send))
        } else {
            let (reader, r) = self.reader.message();
            let next = ConnectionModel { reader, ..self };
            match r {
                Poll::Ready(Err(e)) => (next.dirtied(), Poll::Ready(Err(e))),
                r => (next, r),
            }
        }
    }
}

/// The lease as `start_sequence` hands it out on the connection `owner`.
pub open spec fn fresh_lease(owner: u64) -> SequenceModel {
    SequenceModel {
        active: true,
        stage: Stage::Idle,
        goal: Goal::Description,
        owner,
        passed: Seq::empty(),
    }
}

/// The statement that asks the server for its version.
pub open spec fn version_request() -> Seq<char> {
    "SELECT sys::get_version_as_str()"@
}

impl ConnectionModel {
    /// Leasing the connection to one request. A dirty connection refuses
    /// and stays as it is; a consistent one is dirty from here on.
    pub open spec fn start_sequence(self) -> (ConnectionModel, Result<SequenceModel, Error>) {
        if self.dirty {
            (self, Err(Error::ClientInconsistent))
        } else {
            (self.dirtied(), Ok(fresh_lease(self.id)))
        }
    }

    /// Leasing the connection and sending one message that opens the
    /// exchange at `stage`. A dirty connection refuses; a message that
    /// cannot be encoded ends the lease at once and leaves the connection
    /// dirty.
    pub open spec fn open(self, wire: Option<Seq<u8>>, stage: Stage, goal: Goal) -> (
        ConnectionModel,
        Result<SequenceModel, Error>,
    ) {
        if self.dirty {
            (self, Err(Error::ClientInconsistent))
        } else {
            match wire {
                Some(_) => (
                    self.dirtied().queue(wire),
                    Ok(SequenceModel { stage, goal, ..fresh_lease(self.id) }),
                ),
                None => (self.dirtied().queue(None), Err(Error::ClientEncoding)),
            }
        }
    }

    /// Starting a script: `ExecuteScript` goes out and the completion is
    /// due.
    pub open spec fn execute(self, request: Seq<char>) -> (ConnectionModel, Result<SequenceModel, Error>) {
        self.open(execute_script_wire(request), Stage::Draining { deny: false }, Goal::Script)
    }

    /// Starting the end of the session: `Terminate` goes out and the end
    /// of the stream is due.
    pub open spec fn terminate(self) -> (ConnectionModel, Result<SequenceModel, Error>) {
        self.open(Some(terminate_wire()), Stage::Closing, Goal::Status)
    }

    /// Starting a query towards `goal`: `Prepare` and `Flush` go out.
    pub open spec fn query(self, request: Seq<char>, bld: StatementParams, goal: Goal) -> (
        ConnectionModel,
        Result<SequenceModel, Error>,
    ) {
        self.open(
            match prepare_wire(bld.io_format, bld.cardinality, Seq::empty(), request) {
                Some(wire) => Some(wire + flush_wire()),
                None => None,
            },
            Stage::Preparing,
            goal,
        )
    }
}

/// Whether the parameter at `i` is the first one called `name`.
pub open spec fn is_first_named(params: Seq<ServerParam>, name: Seq<u8>, i: int) -> bool {
    &&& 0 <= i < params.len()
    &&& params[i].name@ == name
    &&& forall|j: int| 0 <= j < i ==> (#[trigger] params[j]).name@ != name
}

/// Whether two byte strings are the same.
fn same_bytes(a: &[u8], b: &Vec<u8>) -> (r: bool)
    ensures
        r == (a@ == b@),
{
    if a.len() != b.len() {
        return false;
    }
    let mut i: usize = 0;
    while i < a.len()
        invariant
            a@.len() == b@.len(),
            i <= a@.len(),
            forall|j: int| 0 <= j < i ==> a@[j] == b@[j],
        decreases a.len() - i,
    {
        if a[i] != b[i] {
            return false;
        }
        i += 1;
    }
    assert(a@ =~= b@);
    true
}

/// A single connection to the server, without its stream.
pub struct Connection {
    id: u64,
    reader: Reader,
    writer: Writer,
    params: Vec<ServerParam>,
    dirty: bool,
}

impl View for Connection {
    type V = ConnectionModel;

    closed spec fn view(&self) -> ConnectionModel {
        ConnectionModel {
            id: self.id,
            reader: self.reader@,
            writer: self.writer@,
            params: self.params@,
            dirty: self.dirty,
        }
    }
}

impl Connection {
    /// A consistent connection on a stream whose handshake ended in
    /// `transaction_state`. Its leases are told from those of other
    /// connections by `id`.
    pub fn new(
        id: u64,
        version: ProtocolVersion,
        params: Vec<ServerParam>,
        transaction_state: TransactionState,
    ) -> (c: Connection)
        ensures
            c@.wf(),
            c@.id == id,
            !c@.dirty,
            c@.params == params@,
            c@.reader.proto == version,
            c@.reader.buf == Seq::<u8>::empty(),
            c@.reader.transaction_state == transaction_state,
            c@.reader.fault == None::<Fault>,
            c@.reader.ready_log == seq![transaction_state],
            c@.writer == (WriterModel { proto: version, outbuf: Seq::empty(), broken: false }),
    {
        Connection {
            id,
            reader: Reader::new(version, transaction_state),
            writer: Writer::new(version),
            params,
            dirty: false,
        }
    }

    /// The protocol version agreed on at the handshake.
    pub fn protocol(&self) -> (v: &ProtocolVersion)
        ensures
            *v == self@.reader.proto,
    {
        self.reader.protocol()
    }

    /// What tells this connection from others.
    pub fn id(&self) -> (id: u64)
        ensures
            id == self@.id,
    {
        self.id
    }

    /// Whether `seq`, if it is a live lease, is the lease on this
    /// connection. Every operation of a lease asks for this.
    pub fn holds(&self, seq: &Sequence) -> (b: bool)
        ensures
            b == self@.leased_to(seq@),
    {
        !seq.is_active() || (seq.owner() == self.id && self.dirty)
    }

    /// Whether the connection can take a request.
    pub fn is_consistent(&self) -> (b: bool)
        ensures
            b == !self@.dirty,
    {
        !self.dirty
    }

    /// The transaction state that the server last reported.
    pub fn transaction_state(&self) -> (s: TransactionState)
        ensures
            s == self@.reader.transaction_state,
    {
        self.reader.transaction_state()
    }

    /// The bytes that the caller has to write to the stream.
    pub fn output(&self) -> (bytes: &Vec<u8>)
        ensures
            bytes@ == self@.writer.outbuf,
    {
        self.writer.pending()
    }

    /// Notes that the output was written to the stream.
    pub fn sent(&mut self)
        ensures
            final(self)@ == old(self)@.sent(),
    {
        self.writer.flushed();
    }

    /// Notes that writing to the stream failed.
    pub fn send_failed(&mut self)
        ensures
            final(self)@ == old(self)@.send_failed(),
    {
        self.writer.fail();
    }

    /// Takes in bytes that were read from the stream.
    pub fn received(&mut self, bytes: &[u8])
        ensures
            final(self)@ == old(self)@.received(bytes@),
    {
        self.reader.feed(bytes);
    }

    /// Notes that reading from the stream ended, failed or timed out.
    pub fn interrupted(&mut self, fault: Fault)
        ensures
            final(self)@ == old(self)@.interrupted(fault),
    {
        self.reader.interrupt(fault);
    }

    /// The value of the parameter called `name`: that of the first
    /// announcement under this name, if there is one.
    pub fn get_param(&self, name: &[u8]) -> (r: Option<&Vec<u8>>)
        ensures
            match r {
                Some(value) => exists|i: int|
                    is_first_named(self@.params, name@, i) && *value == self@.params[i].value,
                None => forall|i: int|
                    0 <= i < self@.params.len() ==> (#[trigger] self@.params[i]).name@ != name@,
            },
    {
        let mut i: usize = 0;
        while i < self.params.len()
            invariant
                i <= self.params.len(),
                forall|j: int| 0 <= j < i ==> (#[trigger] self.params@[j]).name@ != name@,
            decreases self.params.len() - i,
        {
            if same_bytes(name, &self.params[i].name) {
                assert(is_first_named(self@.params, name@, i as int));
                return Some(&self.params[i].value);
            }
            i += 1;
        }
        None
    }

    /// Notes that a read on the idle stream returned, whatever it
    /// returned: the server is closing, and the connection has to be
    /// replaced.
    pub fn passive_wait(&mut self)
        ensures
            final(self)@ == old(self)@.dirtied(),
    {
        self.dirty = true;
    }

    /// Leases the connection to one request. A dirty connection is
    /// refused; otherwise the connection is dirty from here to the clean
    /// end of the lease.
    pub fn start_sequence(&mut self) -> (r: Result<Sequence, Error>)
        ensures
            final(self)@ == old(self)@.start_sequence().0,
            lease_view(r) == old(self)@.start_sequence().1,
    {
        if self.dirty {
            return Err(Error::ClientInconsistent);
        }
        self.dirty = true;
        Ok(Sequence::lease(self.id))
    }

    /// Takes the next server message, once the queued output has left.
    pub fn message(&mut self) -> (r: Poll<Result<ServerMessage, Error>>)
        ensures
            final(self)@ == old(self)@.next_message().0,
            r == old(self)@.next_message().1,
    {
        if self.writer.is_broken() {
            self.dirty = true;
            return Poll::Ready(Err(Error::ClientConnection));
        }
        if self.writer.pending().len() > 0 {
            return Poll::Pending(Wait::Send);
        }
        match self.reader.message() {
            Poll::Ready(Err(e)) => {
                self.dirty = true;
                Poll::Ready(Err(e))
            },
            r => r,
        }
    }

    /// Starts a query towards `goal` on a fresh lease.
    pub fn start_query(&mut self, request: &str, bld: &StatementParams, goal: Goal) -> (r: Result<
        Sequence,
        Error,
    >)
        ensures
            final(self)@ == old(self)@.query(request@, *bld, goal).0,
            lease_view(r) == old(self)@.query(request@, *bld, goal).1,
    {
        let mut seq = self.start_sequence()?;
        match seq.begin(self, request, bld, goal) {
            Ok(()) => Ok(seq),
            Err(e) => Err(e),
        }
    }

    /// Starts the execution of a script of statements without arguments.
    /// Polling the lease ends in the completion status.
    pub fn execute(&mut self, request: &str) -> (r: Result<Sequence, Error>)
        ensures
            final(self)@ == old(self)@.execute(request@).0,
            lease_view(r) == old(self)@.execute(request@).1,
    {
        let mut seq = self.start_sequence()?;
        let msgs = vec![ClientMessage::ExecuteScript { script_text: request.to_owned() }];
        proof {
            lemma_wire_all_pair(msgs@[0], msgs@[0]);
            assert(msgs@ =~= seq![msgs@[0]]);
        }
        match self.queue(&msgs) {
            Ok(()) => {
                seq.open_at(Stage::Draining { deny: false }, Goal::Script);
                Ok(seq)
            },
            Err(e) => Err(e),
        }
    }

    /// Starts a query for rows in the binary format. Once the arguments
    /// are in, the lease streams if the statement has an output shape, and
    /// else ends in `NoResultExpected`.
    pub fn query(&mut self, request: &str) -> (r: Result<Sequence, Error>)
        ensures
            final(self)@ == old(self)@.query(request@, StatementParams::spec_new(), Goal::Rows).0,
            lease_view(r) == old(self)@.query(request@, StatementParams::spec_new(), Goal::Rows).1,
    {
        self.start_query(request, &StatementParams::new(), Goal::Rows)
    }

    /// Starts a query whose whole result comes as one JSON string.
    pub fn query_json(&mut self, request: &str) -> (r: Result<Sequence, Error>)
        ensures
            final(self)@ == old(self)@.query(
                request@,
                StatementParams::spec_new().with_io_format(IoFormat::Json),
                Goal::Rows,
            ).0,
            lease_view(r) == old(self)@.query(
                request@,
                StatementParams::spec_new().with_io_format(IoFormat::Json),
                Goal::Rows,
            ).1,
    {
        let mut bld = StatementParams::new();
        bld.io_format(IoFormat::Json);
        self.start_query(request, &bld, Goal::Rows)
    }

    /// Starts a query whose rows come as one JSON string each.
    pub fn query_json_els(&mut self, request: &str) -> (r: Result<Sequence, Error>)
        ensures
            final(self)@ == old(self)@.query(
                request@,
                StatementParams::spec_new().with_io_format(IoFormat::JsonElements),
                Goal::Rows,
            ).0,
            lease_view(r) == old(self)@.query(
                request@,
                StatementParams::spec_new().with_io_format(IoFormat::JsonElements),
                Goal::Rows,
            ).1,
    {
        let mut bld = StatementParams::new();
        bld.io_format(IoFormat::JsonElements);
        self.start_query(request, &bld, Goal::Rows)
    }

    /// Starts a statement with arguments that is expected to send no rows.
    /// Polling the lease ends in the completion status.
    pub fn execute_args(&mut self, request: &str) -> (r: Result<Sequence, Error>)
        ensures
            final(self)@ == old(self)@.query(request@, StatementParams::spec_new(), Goal::Status).0,
            lease_view(r) == old(self)@.query(request@, StatementParams::spec_new(), Goal::Status).1,
    {
        self.start_query(request, &StatementParams::new(), Goal::Status)
    }

    /// Starts the query for the server's version, whose single row is the
    /// version string.
    pub fn get_version(&mut self) -> (r: Result<Sequence, Error>)
        ensures
            final(self)@ == old(self)@.query(
                version_request(),
                StatementParams::spec_new(),
                Goal::Rows,
            ).0,
            lease_view(r) == old(self)@.query(version_request(), StatementParams::spec_new(), Goal::Rows).1,
    {
        self.query("SELECT sys::get_version_as_str()")
    }

    /// Starts the end of the session. Polling the lease ends in `Closed`
    /// when the server closes the stream; any message instead is a
    /// protocol violation.
    pub fn terminate(&mut self) -> (r: Result<Sequence, Error>)
        ensures
            final(self)@ == old(self)@.terminate().0,
            lease_view(r) == old(self)@.terminate().1,
    {
        let mut seq = self.start_sequence()?;
        let msgs = vec![ClientMessage::Terminate];
        proof {
            lemma_wire_all_pair(msgs@[0], msgs@[0]);
            assert(msgs@ =~= seq![msgs@[0]]);
        }
        let _ = self.queue(&msgs);
        seq.open_at(Stage::Closing, Goal::Status);
        Ok(seq)
    }

    /// Marks the connection dirty.
    pub(crate) fn taint(&mut self)
        ensures
            final(self)@ == old(self)@.dirtied(),
    {
        self.dirty = true;
    }

    /// Marks the connection consistent.
    pub(crate) fn cleanse(&mut self)
        ensures
            final(self)@ == old(self)@.cleaned(),
    {
        self.dirty = false;
    }

    /// Queues a batch of messages.
    pub(crate) fn queue(&mut self, msgs: &Vec<ClientMessage>) -> (r: Result<(), Error>)
        ensures
            final(self)@ == old(self)@.queue(wire_all(msgs@)),
            r == old(self)@.writer.send(wire_all(msgs@)).1,
    {
        self.writer.send_messages(msgs)
    }

    /// Queues `DescribeStatement` and `Flush`.
    pub(crate) fn queue_describe(&mut self)
        ensures
            final(self)@ == old(self)@.queue(Some(describe_request())),
    {
        let msgs = vec![
            ClientMessage::DescribeStatement { statement_name: Vec::new() },
            ClientMessage::Flush,
        ];
        proof {
            lemma_own_requests_fit();
            lemma_wire_all_pair(msgs@[0], msgs@[1]);
            assert(msgs@ =~= seq![msgs@[0], msgs@[1]]);
        }
        let _ = self.queue(&msgs);
    }

    /// Queues `Sync`.
    pub(crate) fn queue_sync(&mut self)
        ensures
            final(self)@ == old(self)@.queue(Some(sync_wire())),
    {
        let msgs = vec![ClientMessage::Sync];
        proof {
            lemma_wire_all_pair(msgs@[0], msgs@[0]);
            assert(msgs@ =~= seq![msgs@[0]]);
        }
        let _ = self.queue(&msgs);
    }
}

} // verus!
