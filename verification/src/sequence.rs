//! The lease that one request holds on a connection, and the exchange
//! engine that takes the request from its first message to its result.

use crate::client::{Connection, ConnectionModel, StatementParams};
use crate::codec::{parse_descriptors, roots_of};
use crate::errors::{Error, ServerError, Violation};
use crate::message::{
    describe_wire, execute_wire, flush_wire, prepare_wire, sync_wire, wire_all, ClientMessage,
    DataDescription, ServerMessage,
};
use crate::poll::{Poll, Wait};
use crate::reader::lemma_message_consumes;
use crate::writer::lemma_wire_all_pair;
use vstd::prelude::*;

verus! {

/// How long resynchronising after a server error may take, in seconds.
pub const SYNC_DEADLINE: u64 = 10;

/// What a `CommandDataDescription` said of a statement.
#[derive(Clone, Debug, PartialEq, Eq)]
pub struct Described {
    pub description: DataDescription,
    /// Where the root of the output descriptor stands; `None` for a
    /// statement that produces no rows.
    pub output_root: Option<u16>,
    /// Where the root of the input descriptor stands.
    pub input_root: Option<u16>,
}

/// What the exchange is after once the statement has been executed.
#[derive(Clone, Copy, Debug, PartialEq, Eq, Structural)]
pub enum Goal {
    /// The description alone.
    Description,
    /// The rows.
    Rows,
    /// The completion status of a statement.
    Status,
    /// The completion status of a script.
    Script,
}

/// Where an exchange stands.
#[derive(Debug, PartialEq, Eq)]
pub enum Stage {
    /// Nothing is in progress.
    Idle,
    /// `Prepare` went out; `PrepareComplete` is due.
    Preparing,
    /// `DescribeStatement` went out; the description is due.
    Describing,
    /// The description came; the caller owes the encoded arguments.
    Encoding(Described),
    /// `ReadyForCommand` is due, under a deadline if `timed`; with an
    /// error, the exchange then ends in it.
    Waiting { timed: bool, error: Option<ServerError> },
    /// The completion of a command is due; rows are not wanted. With
    /// `deny`, a completion ends the exchange in `NoResultExpected`.
    Draining { deny: bool },
    /// The command has ended in `outcome`; `ReadyForCommand` is due.
    Settling { outcome: Result<Vec<u8>, ServerError>, deny: bool },
    /// Rows are due, then the completion.
    Streaming,
    /// As `Streaming`, but `ReadyForCommand` must follow the completion at
    /// once.
    Collecting,
    /// The collected command has ended; only `ReadyForCommand` may come.
    Expecting(Result<Vec<u8>, ServerError>),
    /// `Terminate` went out; the end of the stream is due.
    Closing,
}

/// What an exchange hands to its caller.
#[derive(Clone, Debug, PartialEq, Eq)]
pub enum Reply {
    /// Nothing was in progress.
    Nothing,
    /// The server is ready for the next command.
    Ready,
    /// The rows of one `Data` message, undecoded.
    Data(Vec<Vec<u8>>),
    /// The command completed with this status.
    Status(Vec<u8>),
    /// The server closed the stream.
    Closed,
}

/// The request for the description of the statement that was prepared:
/// `DescribeStatement` and `Flush`.
pub open spec fn describe_request() -> Seq<u8> {
    describe_wire(Seq::empty())->0 + flush_wire()
}

/// The stage that follows the execution of a statement.
pub open spec fn stage_after_execute(goal: Goal, output_root: Option<u16>) -> Stage {
    match goal {
        Goal::Description => Stage::Idle,
        Goal::Status | Goal::Script => Stage::Draining { deny: false },
        Goal::Rows => if output_root is Some {
            Stage::Streaming
        } else {
            Stage::Draining { deny: true }
        },
    }
}

/// What a settled command hands to the caller.
pub open spec fn settled(outcome: Result<Vec<u8>, ServerError>, deny: bool) -> Result<Reply, Error> {
    match outcome {
        Ok(status) => if deny {
            Err(Error::NoResultExpected(status))
        } else {
            Ok(Reply::Status(status))
        },
        Err(e) => Err(Error::ErrorResponse(e)),
    }
}

/// The lease as a mathematical value.
#[verifier::ext_equal]
pub struct SequenceModel {
    /// True from the start of the lease to its clean end.
    pub active: bool,
    pub stage: Stage,
    pub goal: Goal,
    /// The connection that the lease was taken on.
    pub owner: u64,
    /// The codes of the messages that the exchange has passed over and
    /// not told its caller of yet, oldest first.
    pub passed: Seq<u8>,
}

/// The lease that one request holds on a connection, and the state of the
/// exchange it drives. Only a connection hands one out.
#[derive(Debug, PartialEq, Eq)]
pub struct Sequence {
    active: bool,
    stage: Stage,
    goal: Goal,
    owner: u64,
    passed: Vec<u8>,
}

impl View for Sequence {
    type V = SequenceModel;

    closed spec fn view(&self) -> SequenceModel {
        SequenceModel {
            active: self.active,
            stage: self.stage,
            goal: self.goal,
            owner: self.owner,
            passed: self.passed@,
        }
    }
}

/// What a connection answers when it is asked for a lease, as a
/// mathematical value.
pub open spec fn lease_view(r: Result<Sequence, Error>) -> Result<SequenceModel, Error> {
    match r {
        Ok(seq) => Ok(seq@),
        Err(e) => Err(e),
    }
}

impl SequenceModel {
    /// The lease with nothing in progress.
    pub open spec fn idle(self) -> SequenceModel {
        SequenceModel { stage: Stage::Idle, ..self }
    }

    /// The lease after its clean end.
    pub open spec fn ended(self) -> SequenceModel {
        SequenceModel { active: false, stage: Stage::Idle, ..self }
    }

    /// The lease at another stage.
    pub open spec fn at(self, stage: Stage) -> SequenceModel {
        SequenceModel { stage, ..self }
    }

    /// The lease after it has passed over a message.
    pub open spec fn passing(self, msg: ServerMessage) -> SequenceModel {
        SequenceModel { passed: self.passed.push(msg.spec_code()), ..self }
    }

    /// The lease after its caller has been told what was passed over.
    pub open spec fn told(self) -> SequenceModel {
        SequenceModel { passed: Seq::empty(), ..self }
    }

    /// The wait that the stage turns a need for input into.
    pub open spec fn timed(self, w: Wait) -> Wait {
        match (self.stage, w) {
            (Stage::Waiting { timed: true, .. }, Wait::Receive) => Wait::ReceiveWithin(
                SYNC_DEADLINE,
            ),
            _ => w,
        }
    }

    /// What one message does to the exchange: the next stage, what is
    /// queued for the server, and the result if the message ends the
    /// polling. A message that the exchange has no use for where it stands,
    /// and that may come there, is passed over and its code kept for the
    /// caller; only the rows that a statement with arguments sends unasked
    /// are dropped without a trace.
    pub open spec fn spec_on_message(self, conn: ConnectionModel, msg: ServerMessage) -> (
        SequenceModel,
        ConnectionModel,
        Option<Poll<Result<Reply, Error>>>,
    ) {
        let out_of_order = (
            self.idle(),
            conn.dirtied(),
            Some(Poll::<Result<Reply, Error>>::Ready(Err(Error::ProtocolOutOfOrder))),
        );
        match self.stage {
            Stage::Preparing => match msg {
                ServerMessage::PrepareComplete => (
                    self.at(Stage::Describing),
                    conn.queue(Some(describe_request())),
                    None,
                ),
                ServerMessage::ErrorResponse(e) => (
                    self.at(Stage::Waiting { timed: true, error: Some(e) }),
                    conn.queue(Some(sync_wire())),
                    None,
                ),
                _ => out_of_order,
            },
            Stage::Describing => match msg {
                ServerMessage::CommandDataDescription(description) => match roots_of(
                    conn.reader.proto,
                    description,
                ) {
                    Some((output_root, input_root)) => (
                        self.at(Stage::Encoding(Described { description, output_root, input_root })),
                        conn,
                        Some(Poll::Pending(Wait::Arguments)),
                    ),
                    None => (
                        self.idle(),
                        conn.dirtied(),
                        Some(Poll::Ready(Err(Error::ProtocolEncoding))),
                    ),
                },
                ServerMessage::ErrorResponse(e) => (
                    self.at(Stage::Waiting { timed: true, error: Some(e) }),
                    conn.queue(Some(sync_wire())),
                    None,
                ),
                _ => out_of_order,
            },
            Stage::Waiting { timed, error } => match msg {
                ServerMessage::ReadyForCommand(_) => (
                    self.ended(),
                    conn.cleaned(),
                    Some(
                        Poll::Ready(
                            match error {
                                Some(e) => Err(Error::ErrorResponse(e)),
                                None => Ok(Reply::Ready),
                            },
                        ),
                    ),
                ),
                _ => (self.passing(msg), conn, None),
            },
            Stage::Draining { deny } => match msg {
                ServerMessage::CommandComplete(status) => (
                    self.at(Stage::Settling { outcome: Ok(status), deny }),
                    conn,
                    None,
                ),
                ServerMessage::ErrorResponse(e) => (
                    self.at(Stage::Settling { outcome: Err(e), deny }),
                    conn,
                    None,
                ),
                ServerMessage::Data(_) => (
                    if self.goal is Script {
                        self.passing(msg)
                    } else {
                        self
                    },
                    conn,
                    None,
                ),
                _ => (self.passing(msg), conn, None),
            },
            Stage::Settling { outcome, deny } => match msg {
                ServerMessage::ReadyForCommand(_) => (
                    self.ended(),
                    conn.cleaned(),
                    Some(Poll::Ready(settled(outcome, deny))),
                ),
                _ => (self.passing(msg), conn, None),
            },
            Stage::Streaming => match msg {
                ServerMessage::Data(chunks) => (self, conn, Some(Poll::Ready(Ok(Reply::Data(chunks))))),
                ServerMessage::CommandComplete(status) => (
                    self.at(Stage::Settling { outcome: Ok(status), deny: false }),
                    conn,
                    None,
                ),
                ServerMessage::ErrorResponse(e) => (
                    self.at(Stage::Settling { outcome: Err(e), deny: false }),
                    conn,
                    None,
                ),
                _ => out_of_order,
            },
            Stage::Collecting => match msg {
                ServerMessage::Data(chunks) => (self, conn, Some(Poll::Ready(Ok(Reply::Data(chunks))))),
                ServerMessage::CommandComplete(status) => (
                    self.at(Stage::Expecting(Ok(status))),
                    conn,
                    None,
                ),
                ServerMessage::ErrorResponse(e) => (self.at(Stage::Expecting(Err(e))), conn, None),
                _ => out_of_order,
            },
            Stage::Expecting(outcome) => match msg {
                ServerMessage::ReadyForCommand(_) => (
                    self.ended(),
                    conn.cleaned(),
                    Some(Poll::Ready(settled(outcome, false))),
                ),
                _ => out_of_order,
            },
            Stage::Closing => (
                self.idle(),
                conn.dirtied(),
                Some(Poll::Ready(Err(Error::Protocol(Violation::UnsolicitedMessage)))),
            ),
            Stage::Idle => (self, conn, Some(Poll::Ready(Ok(Reply::Nothing)))),
            Stage::Encoding(_) => (self, conn, Some(Poll::Pending(Wait::Arguments))),
        }
    }

    /// Driving the exchange as far as the buffered input carries it.
    ///
    /// With nothing in progress the result is `Nothing`; while the
    /// arguments are owed it asks for them. Otherwise messages are taken
    /// and applied one after the other until one of them ends the polling,
    /// the input runs out, output has to leave first, or an error ends the
    /// exchange. While `Terminate` is out, the end of the stream is the
    /// success.
    pub open spec fn spec_poll(self, conn: ConnectionModel) -> (
        SequenceModel,
        ConnectionModel,
        Poll<Result<Reply, Error>>,
    )
        decreases conn.reader.buf.len(),
    {
        match self.stage {
            Stage::Idle => (self, conn, Poll::Ready(Ok(Reply::Nothing))),
            Stage::Encoding(_) => (self, conn, Poll::Pending(Wait::Arguments)),
            _ => {
                let (taken, m) = conn.next_message();
                match m {
                    Poll::Pending(w) => (self, taken, Poll::Pending(self.timed(w))),
                    Poll::Ready(Err(e)) => if self.stage is Closing && e is ClientConnectionEos {
                        (self.idle(), taken, Poll::Ready(Ok(Reply::Closed)))
                    } else {
                        (self.idle(), taken, Poll::Ready(Err(e)))
                    },
                    Poll::Ready(Ok(msg)) => {
                        let (seq, next, out) = self.spec_on_message(taken, msg);
                        match out {
                            Some(r) => (seq, next, r),
                            None => if next.reader.buf.len() < conn.reader.buf.len() {
                                seq.spec_poll(next)
                            } else {
                                (seq, next, Poll::Pending(Wait::Receive))
                            },
                        }
                    },
                }
            },
        }
    }

    /// Starting a query: `Prepare` and `Flush` are queued, or the exchange
    /// ends at once where the text cannot be encoded.
    pub open spec fn spec_begin(
        self,
        conn: ConnectionModel,
        request: Seq<char>,
        bld: StatementParams,
        goal: Goal,
    ) -> (SequenceModel, ConnectionModel, Result<(), Error>) {
        match prepare_wire(bld.io_format, bld.cardinality, Seq::empty(), request) {
            Some(wire) => (
                SequenceModel { stage: Stage::Preparing, goal, ..self },
                conn.queue(Some(wire + flush_wire())),
                Ok(()),
            ),
            None => (self.idle(), conn.queue(None).dirtied(), Err(Error::ClientEncoding)),
        }
    }

    /// Handing in the encoded arguments: `Execute` and `Sync` are queued
    /// and the exchange goes on to what its goal asks for. A failure to
    /// encode, on either side, ends the exchange and leaves the connection
    /// dirty; so does a call at a stage that owes no arguments.
    pub open spec fn spec_arguments(self, conn: ConnectionModel, encoded: Result<Vec<u8>, Error>) -> (
        SequenceModel,
        ConnectionModel,
        Result<Described, Error>,
    ) {
        match self.stage {
            Stage::Encoding(described) => match encoded {
                Ok(arguments) => match execute_wire(Seq::empty(), arguments@) {
                    Some(wire) => (
                        self.at(stage_after_execute(self.goal, described.output_root)),
                        conn.queue(Some(wire + sync_wire())),
                        Ok(described),
                    ),
                    None => (self.idle(), conn.queue(None).dirtied(), Err(Error::ClientEncoding)),
                },
                Err(e) => (self.idle(), conn.dirtied(), Err(e)),
            },
            _ => (self.idle(), conn.dirtied(), Err(Error::ClientInconsistent)),
        }
    }
}


/// One message never touches the reader, the protocol version or the
/// parameters.
pub proof fn lemma_on_message_keeps_reader(
    seq: SequenceModel,
    conn: ConnectionModel,
    msg: ServerMessage,
)
    ensures
        seq.spec_on_message(conn, msg).1.reader == conn.reader,
        seq.spec_on_message(conn, msg).1.writer.proto == conn.writer.proto,
        seq.spec_on_message(conn, msg).1.params == conn.params,
        seq.spec_on_message(conn, msg).1.id == conn.id,
        seq.spec_on_message(conn, msg).0.owner == seq.owner,
        conn.leased_to(seq) ==> seq.spec_on_message(conn, msg).1.leased_to(
            seq.spec_on_message(conn, msg).0,
        ),
{
}

/// The request for the description can always be encoded.
pub proof fn lemma_own_requests_fit()
    ensures
        describe_wire(Seq::empty()) is Some,
{
    let none = Seq::<u8>::empty();
    assert((seq![0u8, 0u8, 0x54u8] + crate::message::blob(none)).len() == 7);
}

impl Sequence {
    /// A fresh lease on the connection `owner`.
    pub(crate) fn lease(owner: u64) -> (seq: Sequence)
        ensures
            seq@ == crate::client::fresh_lease(owner),
    {
        Sequence {
            active: true,
            stage: Stage::Idle,
            goal: Goal::Description,
            owner,
            passed: Vec::new(),
        }
    }

    /// Puts the exchange at `stage`.
    pub(crate) fn set_stage(&mut self, stage: Stage)
        ensures
            final(self)@ == old(self)@.at(stage),
    {
        self.stage = stage;
    }

    /// Puts the exchange at `stage`, towards `goal`.
    pub(crate) fn open_at(&mut self, stage: Stage, goal: Goal)
        ensures
            final(self)@ == (SequenceModel { stage, goal, ..old(self)@ }),
    {
        self.stage = stage;
        self.goal = goal;
    }

    /// The connection that the lease was taken on.
    pub fn owner(&self) -> (id: u64)
        ensures
            id == self@.owner,
    {
        self.owner
    }

    /// Where the exchange stands.
    pub fn stage(&self) -> (stage: &Stage)
        ensures
            *stage == self@.stage,
    {
        &self.stage
    }

    /// What the exchange is after.
    pub fn goal(&self) -> (goal: Goal)
        ensures
            goal == self@.goal,
    {
        self.goal
    }

    /// The codes of the messages that the exchange has passed over since
    /// its caller last took them, oldest first.
    pub fn passed_over(&self) -> (codes: &Vec<u8>)
        ensures
            codes@ == self@.passed,
    {
        &self.passed
    }

    /// Takes the codes of the messages that the exchange has passed over.
    pub fn take_passed_over(&mut self) -> (codes: Vec<u8>)
        ensures
            codes@ == old(self)@.passed,
            final(self)@ == old(self)@.told(),
    {
        let mut codes = Vec::new();
        core::mem::swap(&mut self.passed, &mut codes);
        codes
    }

    /// Ends the lease cleanly: the connection is consistent again.
    pub fn end_clean(&mut self, conn: &mut Connection)
        requires
            old(conn)@.leased_to(old(self)@),
        ensures
            final(conn)@.leased_to(final(self)@),
            final(self)@ == old(self)@.ended(),
            final(conn)@ == old(conn)@.cleaned(),
    {
        self.active = false;
        self.stage = Stage::Idle;
        conn.cleanse();
    }

    /// Whether the lease still holds.
    pub fn is_active(&self) -> (b: bool)
        ensures
            b == self@.active,
    {
        self.active
    }

    /// Whether rows are due: the statement was executed and has an output
    /// shape.
    pub fn is_streaming(&self) -> (b: bool)
        ensures
            b == (self@.stage is Streaming),
    {
        match self.stage {
            Stage::Streaming => true,
            _ => false,
        }
    }

    /// Queues a batch of messages for the server.
    pub fn send_messages(&mut self, conn: &mut Connection, msgs: &Vec<ClientMessage>) -> (r: Result<
        (),
        Error,
    >)
        requires
            old(conn)@.leased_to(old(self)@),
            old(self)@.active,
        ensures
            final(conn)@.leased_to(final(self)@),
            final(self)@ == old(self)@,
            final(conn)@ == old(conn)@.send(wire_all(msgs@)).0,
            r == old(conn)@.send(wire_all(msgs@)).1,
    {
        match conn.queue(msgs) {
            Ok(()) => Ok(()),
            Err(e) => {
                conn.taint();
                Err(e)
            },
        }
    }

    /// Takes the next server message, whatever the exchange is at.
    pub fn message(&mut self, conn: &mut Connection) -> (r: Poll<Result<ServerMessage, Error>>)
        requires
            old(conn)@.leased_to(old(self)@),
            old(self)@.active,
        ensures
            final(conn)@.leased_to(final(self)@),
            final(self)@ == old(self)@,
            final(conn)@ == old(conn)@.next_message().0,
            r == old(conn)@.next_message().1,
    {
        conn.message()
    }

    /// Makes the next `ReadyForCommand` the clean end of the lease.
    pub fn expect_ready(&mut self)
        requires
            old(self)@.active,
        ensures
            final(self)@ == old(self)@.at(Stage::Waiting { timed: false, error: None }),
    {
        self.stage = Stage::Waiting { timed: false, error: None };
    }

    /// Resynchronises with the server: queues `Sync` and makes the next
    /// `ReadyForCommand`, which is due within the deadline, the clean end
    /// of the lease.
    pub fn err_sync(&mut self, conn: &mut Connection)
        requires
            old(conn)@.leased_to(old(self)@),
            old(self)@.active,
        ensures
            final(conn)@.leased_to(final(self)@),
            final(self)@ == old(self)@.at(Stage::Waiting { timed: true, error: None }),
            final(conn)@ == old(conn)@.queue(Some(sync_wire())),
    {
        conn.queue_sync();
        self.stage = Stage::Waiting { timed: true, error: None };
    }

    /// Expects the completion of a command that was executed and sends no
    /// rows.
    pub fn _process_exec(&mut self)
        requires
            old(self)@.active,
        ensures
            final(self)@ == old(self)@.at(Stage::Draining { deny: false }),
    {
        self.stage = Stage::Draining { deny: false };
    }

    /// Starts a query towards `goal`.
    pub fn begin(
        &mut self,
        conn: &mut Connection,
        request: &str,
        bld: &StatementParams,
        goal: Goal,
    ) -> (r: Result<(), Error>)
        requires
            old(conn)@.leased_to(old(self)@),
            old(self)@.active,
        ensures
            final(conn)@.leased_to(final(self)@),
            final(self)@ == old(self)@.spec_begin(old(conn)@, request@, *bld, goal).0,
            final(conn)@ == old(self)@.spec_begin(old(conn)@, request@, *bld, goal).1,
            r == old(self)@.spec_begin(old(conn)@, request@, *bld, goal).2,
    {
        let msgs = vec![
            ClientMessage::Prepare {
                io_format: bld.io_format,
                expected_cardinality: bld.cardinality,
                statement_name: Vec::new(),
                command_text: request.to_owned(),
            },
            ClientMessage::Flush,
        ];
        proof {
            lemma_wire_all_pair(msgs@[0], msgs@[1]);
            assert(msgs@ =~= seq![msgs@[0], msgs@[1]]);
        }
        match conn.queue(&msgs) {
            Ok(()) => {
                self.stage = Stage::Preparing;
                self.goal = goal;
                Ok(())
            },
            Err(e) => {
                self.stage = Stage::Idle;
                conn.taint();
                Err(e)
            },
        }
    }

    /// Starts the exchange that prepares, describes and executes a
    /// statement, and ends with its description.
    pub fn _query(&mut self, conn: &mut Connection, request: &str, bld: &StatementParams) -> (r:
        Result<(), Error>)
        requires
            old(conn)@.leased_to(old(self)@),
            old(self)@.active,
        ensures
            final(conn)@.leased_to(final(self)@),
            final(self)@ == old(self)@.spec_begin(old(conn)@, request@, *bld, Goal::Description).0,
            final(conn)@ == old(self)@.spec_begin(old(conn)@, request@, *bld, Goal::Description).1,
            r == old(self)@.spec_begin(old(conn)@, request@, *bld, Goal::Description).2,
    {
        self.begin(conn, request, bld, Goal::Description)
    }

    /// Hands in the encoded arguments, or the error of encoding them. A
    /// call at a stage that owes no arguments is an inconsistent use and
    /// leaves the connection dirty.
    pub fn arguments(&mut self, conn: &mut Connection, encoded: Result<Vec<u8>, Error>) -> (r:
        Result<Described, Error>)
        requires
            old(conn)@.leased_to(old(self)@),
        ensures
            final(conn)@.leased_to(final(self)@),
            final(self)@ == old(self)@.spec_arguments(old(conn)@, encoded).0,
            final(conn)@ == old(self)@.spec_arguments(old(conn)@, encoded).1,
            r == old(self)@.spec_arguments(old(conn)@, encoded).2,
    {
        let mut stage = Stage::Idle;
        core::mem::swap(&mut self.stage, &mut stage);
        match stage {
            Stage::Encoding(described) => match encoded {
                Ok(arguments) => {
                    let msgs = vec![
                        ClientMessage::Execute { statement_name: Vec::new(), arguments },
                        ClientMessage::Sync,
                    ];
                    proof {
                        lemma_wire_all_pair(msgs@[0], msgs@[1]);
                        assert(msgs@ =~= seq![msgs@[0], msgs@[1]]);
                    }
                    match conn.queue(&msgs) {
                        Ok(()) => {
                            self.stage = match self.goal {
                                Goal::Description => Stage::Idle,
                                Goal::Status | Goal::Script => Stage::Draining { deny: false },
                                Goal::Rows => if described.output_root.is_some() {
                                    Stage::Streaming
                                } else {
                                    Stage::Draining { deny: true }
                                },
                            };
                            Ok(described)
                        },
                        Err(e) => {
                            conn.taint();
                            Err(e)
                        },
                    }
                },
                Err(e) => {
                    conn.taint();
                    Err(e)
                },
            },
            _ => {
                conn.taint();
                Err(Error::ClientInconsistent)
            },
        }
    }

    /// Applies one server message to the exchange.
    pub fn on_message(&mut self, conn: &mut Connection, msg: ServerMessage) -> (out: Option<
        Poll<Result<Reply, Error>>,
    >)
        requires
            old(conn)@.leased_to(old(self)@),
        ensures
            final(conn)@.leased_to(final(self)@),
            final(self)@ == old(self)@.spec_on_message(old(conn)@, msg).0,
            final(conn)@ == old(self)@.spec_on_message(old(conn)@, msg).1,
            out == old(self)@.spec_on_message(old(conn)@, msg).2,
    {
        let code: u8 = msg.code();
        let script = match self.goal {
            Goal::Script => true,
            _ => false,
        };
        let mut stage = Stage::Idle;
        core::mem::swap(&mut self.stage, &mut stage);
        match stage {
            Stage::Preparing => match msg {
                ServerMessage::PrepareComplete => {
                    conn.queue_describe();
                    self.stage = Stage::Describing;
                    None
                },
                ServerMessage::ErrorResponse(e) => {
                    conn.queue_sync();
                    self.stage = Stage::Waiting { timed: true, error: Some(e) };
                    None
                },
                _ => {
                    conn.taint();
                    Some(Poll::Ready(Err(Error::ProtocolOutOfOrder)))
                },
            },
            Stage::Describing => match msg {
                ServerMessage::CommandDataDescription(description) => {
                    match parse_descriptors(conn.protocol(), &description) {
                        Some((output_root, input_root)) => {
                            self.stage = Stage::Encoding(
                                Described { description, output_root, input_root },
                            );
                            Some(Poll::Pending(Wait::Arguments))
                        },
                        None => {
                            conn.taint();
                            Some(Poll::Ready(Err(Error::ProtocolEncoding)))
                        },
                    }
                },
                ServerMessage::ErrorResponse(e) => {
                    conn.queue_sync();
                    self.stage = Stage::Waiting { timed: true, error: Some(e) };
                    None
                },
                _ => {
                    conn.taint();
                    Some(Poll::Ready(Err(Error::ProtocolOutOfOrder)))
                },
            },
            Stage::Waiting { timed, error } => match msg {
                ServerMessage::ReadyForCommand(_) => {
                    self.active = false;
                    conn.cleanse();
                    match error {
                        Some(e) => Some(Poll::Ready(Err(Error::ErrorResponse(e)))),
                        None => Some(Poll::Ready(Ok(Reply::Ready))),
                    }
                },
                _ => {
                    self.passed.push(code);
                    self.stage = Stage::Waiting { timed, error };
                    None
                },
            },
            Stage::Draining { deny } => match msg {
                ServerMessage::CommandComplete(status) => {
                    self.stage = Stage::Settling { outcome: Ok(status), deny };
                    None
                },
                ServerMessage::ErrorResponse(e) => {
                    self.stage = Stage::Settling { outcome: Err(e), deny };
                    None
                },
                ServerMessage::Data(_) => {
                    if script {
                        self.passed.push(code);
                    }
                    self.stage = Stage::Draining { deny };
                    None
                },
                _ => {
                    self.passed.push(code);
                    self.stage = Stage::Draining { deny };
                    None
                },
            },
            Stage::Settling { outcome, deny } => match msg {
                ServerMessage::ReadyForCommand(_) => {
                    self.active = false;
                    conn.cleanse();
                    Some(Poll::Ready(settle(outcome, deny)))
                },
                _ => {
                    self.passed.push(code);
                    self.stage = Stage::Settling { outcome, deny };
                    None
                },
            },
            Stage::Streaming => match msg {
                ServerMessage::Data(chunks) => {
                    self.stage = Stage::Streaming;
                    Some(Poll::Ready(Ok(Reply::Data(chunks))))
                },
                ServerMessage::CommandComplete(status) => {
                    self.stage = Stage::Settling { outcome: Ok(status), deny: false };
                    None
                },
                ServerMessage::ErrorResponse(e) => {
                    self.stage = Stage::Settling { outcome: Err(e), deny: false };
                    None
                },
                _ => {
                    conn.taint();
                    Some(Poll::Ready(Err(Error::ProtocolOutOfOrder)))
                },
            },
            Stage::Collecting => match msg {
                ServerMessage::Data(chunks) => {
                    self.stage = Stage::Collecting;
                    Some(Poll::Ready(Ok(Reply::Data(chunks))))
                },
                ServerMessage::CommandComplete(status) => {
                    self.stage = Stage::Expecting(Ok(status));
                    None
                },
                ServerMessage::ErrorResponse(e) => {
                    self.stage = Stage::Expecting(Err(e));
                    None
                },
                _ => {
                    conn.taint();
                    Some(Poll::Ready(Err(Error::ProtocolOutOfOrder)))
                },
            },
            Stage::Expecting(outcome) => match msg {
                ServerMessage::ReadyForCommand(_) => {
                    self.active = false;
                    conn.cleanse();
                    Some(Poll::Ready(settle(outcome, false)))
                },
                _ => {
                    conn.taint();
                    Some(Poll::Ready(Err(Error::ProtocolOutOfOrder)))
                },
            },
            Stage::Closing => {
                conn.taint();
                Some(Poll::Ready(Err(Error::Protocol(Violation::UnsolicitedMessage))))
            },
            Stage::Idle => Some(Poll::Ready(Ok(Reply::Nothing))),
            Stage::Encoding(described) => {
                self.stage = Stage::Encoding(described);
                Some(Poll::Pending(Wait::Arguments))
            },
        }
    }

    /// Drives the exchange as far as the buffered input carries it.
    pub fn poll(&mut self, conn: &mut Connection) -> (r: Poll<Result<Reply, Error>>)
        requires
            old(conn)@.leased_to(old(self)@),
        ensures
            final(conn)@.leased_to(final(self)@),
            final(self)@ == old(self)@.spec_poll(old(conn)@).0,
            final(conn)@ == old(self)@.spec_poll(old(conn)@).1,
            r == old(self)@.spec_poll(old(conn)@).2,
    {
        loop
            invariant
                conn@.leased_to(self@),
                self@.spec_poll(conn@) == old(self)@.spec_poll(old(conn)@),
            decreases conn@.reader.buf.len(),
        {
            match &self.stage {
                Stage::Idle => {
                    return Poll::Ready(Ok(Reply::Nothing));
                },
                Stage::Encoding(_) => {
                    return Poll::Pending(Wait::Arguments);
                },
                _ => {},
            }
            let ghost before = conn@;
            proof {
                lemma_message_consumes(before.reader);
            }
            match conn.message() {
                Poll::Pending(w) => {
                    let timed = match (&self.stage, w) {
                        (Stage::Waiting { timed: true, .. }, Wait::Receive) => Wait::ReceiveWithin(
                            SYNC_DEADLINE,
                        ),
                        _ => w,
                    };
                    return Poll::Pending(timed);
                },
                Poll::Ready(Err(e)) => {
                    let closing = match (&self.stage, &e) {
                        (Stage::Closing, Error::ClientConnectionEos) => true,
                        _ => false,
                    };
                    self.stage = Stage::Idle;
                    if closing {
                        return Poll::Ready(Ok(Reply::Closed));
                    }
                    return Poll::Ready(Err(e));
                },
                Poll::Ready(Ok(msg)) => {
                    proof {
                        lemma_on_message_keeps_reader(self@, conn@, msg);
                    }
                    match self.on_message(conn, msg) {
                        Some(r) => {
                            return r;
                        },
                        None => {},
                    }
                },
            }
        }
    }
}

/// What a settled command hands to the caller.
fn settle(outcome: Result<Vec<u8>, ServerError>, deny: bool) -> (r: Result<Reply, Error>)
    ensures
        r == settled(outcome, deny),
{
    match outcome {
        Ok(status) => if deny {
            Err(Error::NoResultExpected(status))
        } else {
            Ok(Reply::Status(status))
        },
        Err(e) => Err(Error::ErrorResponse(e)),
    }
}

} // verus!
