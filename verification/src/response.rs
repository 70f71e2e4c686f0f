//! The row stream of a query: a lazy, single-pass cursor over the rows
//! that the server sends, and the single-row verbs on top of it.

use crate::client::{Connection, ConnectionModel};
use crate::sequence::{lemma_on_message_keeps_reader, Reply, Sequence, SequenceModel, Stage};
use crate::codec::{decode_text, is_text_row};
use crate::errors::{Error, Violation};
use crate::poll::{Poll, Wait};
use crate::reader::lemma_message_consumes;
use std::collections::VecDeque;
use vstd::prelude::*;

verus! {

/// The row stream as a mathematical value.
#[verifier::ext_equal]
pub struct ResponseModel<T, S> {
    /// The lease that the stream holds.
    pub seq: SequenceModel,
    /// Rows that came and wait to be decoded, oldest first.
    pub pending: Seq<Vec<u8>>,
    /// Rows that were decoded and wait to be handed out, oldest first.
    pub buffer: Seq<T>,
    /// The error that ends the stream once the buffer is empty.
    pub error: Option<Error>,
    /// Whether the end of the stream has been seen.
    pub complete: bool,
    /// What the rows are decoded with.
    pub state: S,
    /// The row that a single-row verb holds back.
    pub held: Option<T>,
    /// Whether a single-row verb has seen a second row.
    pub extra: bool,
}

impl<T, S> ResponseModel<T, S> {
    /// Taking in one decoded row, or the error of decoding it. A row joins
    /// the buffer. The first error is kept and ends the stream once the
    /// buffer is empty; what still waited to be decoded is dropped.
    pub open spec fn row(self, decoded: Result<T, Error>) -> ResponseModel<T, S> {
        match decoded {
            Ok(value) => ResponseModel {
                pending: if self.pending.len() > 0 {
                    self.pending.drop_first()
                } else {
                    self.pending
                },
                buffer: self.buffer.push(value),
                ..self
            },
            Err(e) => ResponseModel {
                pending: Seq::empty(),
                error: if self.error is None {
                    Some(e)
                } else {
                    self.error
                },
                ..self
            },
        }
    }

    /// One pull.
    ///
    /// A buffered row goes out first. Then a kept error goes out, once, and
    /// ends the stream where it stands, which leaves the connection dirty;
    /// an ended stream reports its end and nothing changes. Rows that wait have to be decoded before anything else is
    /// read. Otherwise the exchange is driven: rows are kept for decoding,
    /// a completion ends the stream, and an error ends it and goes out.
    pub open spec fn next(self, conn: ConnectionModel) -> (
        ResponseModel<T, S>,
        ConnectionModel,
        Poll<Option<Result<T, Error>>>,
    ) {
        if self.buffer.len() > 0 {
            (
                ResponseModel { buffer: self.buffer.drop_first(), ..self },
                conn,
                Poll::Ready(Some(Ok(self.buffer[0]))),
            )
        } else if self.error is Some {
            (
                ResponseModel { error: None, complete: true, ..self },
                conn.dirtied(),
                Poll::Ready(Some(Err(self.error->0))),
            )
        } else if self.complete {
            (self, conn, Poll::Ready(None))
        } else if self.pending.len() > 0 {
            (self, conn, Poll::Pending(Wait::Rows))
        } else {
            let (seq, next, r) = self.seq.spec_poll(conn);
            match r {
                Poll::Pending(w) => (ResponseModel { seq, ..self }, next, Poll::Pending(w)),
                Poll::Ready(Ok(Reply::Data(chunks))) => (
                    ResponseModel { seq, pending: chunks@, ..self },
                    next,
                    Poll::Pending(Wait::Rows),
                ),
                Poll::Ready(Ok(_)) => (
                    ResponseModel { seq, complete: true, ..self },
                    next,
                    Poll::Ready(None),
                ),
                Poll::Ready(Err(e)) => (
                    ResponseModel { seq, complete: true, ..self },
                    next,
                    Poll::Ready(Some(Err(e))),
                ),
            }
        }
    }

    /// Draining the stream without decoding: what is buffered, waiting or
    /// kept is dropped, and the exchange is driven to its completion with
    /// rows ignored.
    pub open spec fn skip_remaining(self, conn: ConnectionModel) -> (
        ResponseModel<T, S>,
        ConnectionModel,
        Poll<Result<(), Error>>,
    ) {
        let cleared = ResponseModel {
            pending: Seq::empty(),
            buffer: Seq::empty(),
            error: None,
            ..self
        };
        if self.complete {
            (cleared, conn, Poll::Ready(Ok(())))
        } else {
            let draining = if self.seq.stage is Streaming {
                self.seq.at(Stage::Draining { deny: false })
            } else {
                self.seq
            };
            let (seq, next, r) = draining.spec_poll(conn);
            match r {
                Poll::Pending(w) => (ResponseModel { seq, ..cleared }, next, Poll::Pending(w)),
                Poll::Ready(Ok(_)) => (
                    ResponseModel { seq, complete: true, ..cleared },
                    next,
                    Poll::Ready(Ok(())),
                ),
                Poll::Ready(Err(e)) => (
                    ResponseModel { seq, complete: true, ..cleared },
                    next,
                    Poll::Ready(Err(e)),
                ),
            }
        }
    }

    /// How far a single-row verb still is from its answer.
    pub open spec fn distance(self) -> nat {
        if self.extra {
            0
        } else if self.held is Some {
            1
        } else {
            2
        }
    }

    /// The strict single-row verb: it pulls up to two rows. No row is
    /// `NoData`; one row is the answer; a second row makes it drain the
    /// stream and then report the extra row.
    pub open spec fn query_row(self, conn: ConnectionModel) -> (
        ResponseModel<T, S>,
        ConnectionModel,
        Poll<Result<T, Error>>,
    )
        decreases self.distance(),
    {
        if self.extra {
            let (rest, next, r) = self.skip_remaining(conn);
            match r {
                Poll::Pending(w) => (rest, next, Poll::Pending(w)),
                Poll::Ready(Ok(())) => (
                    rest,
                    next,
                    Poll::Ready(Err(Error::Protocol(Violation::ExtraRow))),
                ),
                Poll::Ready(Err(e)) => (rest, next, Poll::Ready(Err(e))),
            }
        } else {
            let (rest, next, r) = self.next(conn);
            match r {
                Poll::Pending(w) => (rest, next, Poll::Pending(w)),
                Poll::Ready(None) => match rest.held {
                    Some(row) => (ResponseModel { held: None, ..rest }, next, Poll::Ready(Ok(row))),
                    None => (rest, next, Poll::Ready(Err(Error::NoData))),
                },
                Poll::Ready(Some(Err(e))) => (rest, next, Poll::Ready(Err(e))),
                Poll::Ready(Some(Ok(row))) => if rest.extra {
                    (rest, next, Poll::Ready(Err(Error::Protocol(Violation::ExtraRow))))
                } else if rest.held is None {
                    (ResponseModel { held: Some(row), ..rest }).query_row(next)
                } else {
                    (ResponseModel { extra: true, ..rest }).query_row(next)
                },
            }
        }
    }

    /// The optional single-row verb: no row is `None`; one row is the
    /// answer; a second row is reported at once, without draining, and
    /// leaves the connection dirty.
    pub open spec fn query_row_opt(self, conn: ConnectionModel) -> (
        ResponseModel<T, S>,
        ConnectionModel,
        Poll<Result<Option<T>, Error>>,
    )
        decreases self.distance(),
    {
        let (rest, next, r) = self.next(conn);
        match r {
            Poll::Pending(w) => (rest, next, Poll::Pending(w)),
            Poll::Ready(None) => (ResponseModel { held: None, ..rest }, next, Poll::Ready(Ok(rest.held))),
            Poll::Ready(Some(Err(e))) => (rest, next, Poll::Ready(Err(e))),
            Poll::Ready(Some(Ok(row))) => if rest.held is None && !rest.extra {
                (ResponseModel { held: Some(row), ..rest }).query_row_opt(next)
            } else {
                (
                    ResponseModel { extra: true, ..rest },
                    next.dirtied(),
                    Poll::Ready(Err(Error::Protocol(Violation::ExtraRow))),
                )
            },
        }
    }
}

/// The rows of a query, decoded one batch at a time as they come.
pub struct QueryResponse<T, S> {
    seq: Sequence,
    chunks: Vec<Vec<u8>>,
    cursor: usize,
    buffer: VecDeque<T>,
    error: Option<Error>,
    complete: bool,
    state: S,
    held: Option<T>,
    extra: bool,
}

impl<T, S> View for QueryResponse<T, S> {
    type V = ResponseModel<T, S>;

    closed spec fn view(&self) -> ResponseModel<T, S> {
        ResponseModel {
            seq: self.seq@,
            pending: if self.cursor <= self.chunks@.len() {
                self.chunks@.skip(self.cursor as int)
            } else {
                Seq::empty()
            },
            buffer: self.buffer@,
            error: self.error,
            complete: self.complete,
            state: self.state,
            held: self.held,
            extra: self.extra,
        }
    }
}

impl Sequence {
    /// Turns the lease into the row stream of the statement it has
    /// executed: from here on rows are due, then the completion. `state` is
    /// what the caller decodes the rows with.
    pub fn response<T, S>(self, state: S) -> (r: QueryResponse<T, S>)
        requires
            self@.active,
        ensures
            r@ == (ResponseModel::<T, S> {
                seq: self@.at(Stage::Streaming),
                pending: Seq::empty(),
                buffer: Seq::empty(),
                error: None,
                complete: false,
                state,
                held: None,
                extra: false,
            }),
    {
        let mut seq = self;
        seq.set_stage(Stage::Streaming);
        QueryResponse {
            seq,
            chunks: Vec::new(),
            cursor: 0,
            buffer: VecDeque::new(),
            error: None,
            complete: false,
            state,
            held: None,
            extra: false,
        }
    }
}

impl<T, S> QueryResponse<T, S> {
    /// What the rows are decoded with.
    pub fn state(&self) -> (s: &S)
        ensures
            *s == self@.state,
    {
        &self.state
    }

    /// The lease that the stream holds.
    pub fn sequence(&self) -> (s: &Sequence)
        ensures
            s@ == self@.seq,
    {
        &self.seq
    }

    /// Takes the codes of the messages that the stream has passed over
    /// since they were last taken, oldest first.
    pub fn take_passed_over(&mut self) -> (codes: Vec<u8>)
        ensures
            codes@ == old(self)@.seq.passed,
            final(self)@ == (ResponseModel { seq: old(self)@.seq.told(), ..old(self)@ }),
    {
        self.seq.take_passed_over()
    }

    /// Whether the end of the stream has been seen.
    pub fn is_complete(&self) -> (b: bool)
        ensures
            b == self@.complete,
    {
        self.complete
    }

    /// The oldest row that waits to be decoded.
    pub fn pending_row(&self) -> (chunk: Option<&Vec<u8>>)
        ensures
            match chunk {
                Some(bytes) => self@.pending.len() > 0 && *bytes == self@.pending[0],
                None => self@.pending.len() == 0,
            },
    {
        if self.cursor < self.chunks.len() {
            Some(&self.chunks[self.cursor])
        } else {
            None
        }
    }

    /// Takes in the oldest waiting row as the caller decoded it.
    pub fn row(&mut self, decoded: Result<T, Error>)
        ensures
            final(self)@ == old(self)@.row(decoded),
    {
        match decoded {
            Ok(value) => {
                if self.cursor < self.chunks.len() {
                    self.cursor = self.cursor + 1;
                    assert(self@.pending =~= old(self)@.pending.drop_first());
                }
                self.buffer.push_back(value);
            },
            Err(e) => {
                self.chunks.clear();
                self.cursor = 0;
                if self.error.is_none() {
                    self.error = Some(e);
                }
                assert(self@.pending =~= Seq::<Vec<u8>>::empty());
            },
        }
    }

    /// Pulls the next row.
    pub fn next(&mut self, conn: &mut Connection) -> (r: Poll<Option<Result<T, Error>>>)
        requires
            old(conn)@.leased_to(old(self)@.seq),
        ensures
            final(conn)@.leased_to(final(self)@.seq),
            final(self)@ == old(self)@.next(old(conn)@).0,
            final(conn)@ == old(self)@.next(old(conn)@).1,
            r == old(self)@.next(old(conn)@).2,
    {
        if self.buffer.len() > 0 {
            match self.buffer.pop_front() {
                Some(value) => {
                    assert(self@.buffer =~= old(self)@.buffer.drop_first());
                    return Poll::Ready(Some(Ok(value)));
                },
                None => {
                    return Poll::Ready(None);
                },
            }
        }
        let mut kept: Option<Error> = None;
        core::mem::swap(&mut self.error, &mut kept);
        match kept {
            Some(e) => {
                self.complete = true;
                conn.taint();
                return Poll::Ready(Some(Err(e)));
            },
            None => {},
        }
        if self.complete {
            return Poll::Ready(None);
        }
        if self.cursor < self.chunks.len() {
            return Poll::Pending(Wait::Rows);
        }
        match self.seq.poll(conn) {
            Poll::Pending(w) => Poll::Pending(w),
            Poll::Ready(Ok(Reply::Data(chunks))) => {
                self.chunks = chunks;
                self.cursor = 0;
                assert(self@.pending =~= chunks@);
                Poll::Pending(Wait::Rows)
            },
            Poll::Ready(Ok(_)) => {
                self.complete = true;
                Poll::Ready(None)
            },
            Poll::Ready(Err(e)) => {
                self.complete = true;
                Poll::Ready(Some(Err(e)))
            },
        }
    }

    /// Drains the stream without decoding.
    pub fn skip_remaining(&mut self, conn: &mut Connection) -> (r: Poll<Result<(), Error>>)
        requires
            old(conn)@.leased_to(old(self)@.seq),
        ensures
            final(conn)@.leased_to(final(self)@.seq),
            final(self)@ == old(self)@.skip_remaining(old(conn)@).0,
            final(conn)@ == old(self)@.skip_remaining(old(conn)@).1,
            r == old(self)@.skip_remaining(old(conn)@).2,
    {
        self.chunks.clear();
        self.cursor = 0;
        self.buffer.clear();
        self.error = None;
        assert(self@.pending =~= Seq::<Vec<u8>>::empty());
        if self.complete {
            return Poll::Ready(Ok(()));
        }
        if self.seq.is_streaming() {
            self.seq.set_stage(Stage::Draining { deny: false });
        }
        match self.seq.poll(conn) {
            Poll::Pending(w) => Poll::Pending(w),
            Poll::Ready(Ok(_)) => {
                self.complete = true;
                Poll::Ready(Ok(()))
            },
            Poll::Ready(Err(e)) => {
                self.complete = true;
                Poll::Ready(Err(e))
            },
        }
    }
}

impl<S> QueryResponse<String, S> {
    /// Decodes the oldest waiting row as text and hands it in. It answers
    /// whether a row waited.
    pub fn decode_text_row(&mut self) -> (decoded: bool)
        ensures
            decoded == (old(self)@.pending.len() > 0),
            !decoded ==> final(self)@ == old(self)@,
            decoded ==> exists|text: Result<String, Error>|
                is_text_row(text, old(self)@.pending[0]@) && final(self)@ == old(self)@.row(text),
    {
        if self.cursor < self.chunks.len() {
            let text = decode_text(&self.chunks[self.cursor]);
            assert(old(self)@.pending[0] == self.chunks@[self.cursor as int]);
            self.row(text);
            true
        } else {
            false
        }
    }
}

impl Connection {
    /// Pulls the single row of a query from its stream.
    pub fn query_row<T, S>(&mut self, rows: &mut QueryResponse<T, S>) -> (r: Poll<Result<T, Error>>)
        requires
            old(self)@.leased_to(old(rows)@.seq),
        ensures
            final(self)@.leased_to(final(rows)@.seq),
            final(rows)@ == old(rows)@.query_row(old(self)@).0,
            final(self)@ == old(rows)@.query_row(old(self)@).1,
            r == old(rows)@.query_row(old(self)@).2,
    {
        loop
            invariant
                self@.leased_to(rows@.seq),
                rows@.query_row(self@) == old(rows)@.query_row(old(self)@),
            decreases rows@.distance(),
        {
            if rows.extra {
                return match rows.skip_remaining(self) {
                    Poll::Pending(w) => Poll::Pending(w),
                    Poll::Ready(Ok(())) => Poll::Ready(Err(Error::Protocol(Violation::ExtraRow))),
                    Poll::Ready(Err(e)) => Poll::Ready(Err(e)),
                };
            }
            match rows.next(self) {
                Poll::Pending(w) => {
                    return Poll::Pending(w);
                },
                Poll::Ready(None) => {
                    let mut held: Option<T> = None;
                    core::mem::swap(&mut rows.held, &mut held);
                    return match held {
                        Some(row) => Poll::Ready(Ok(row)),
                        None => Poll::Ready(Err(Error::NoData)),
                    };
                },
                Poll::Ready(Some(Err(e))) => {
                    return Poll::Ready(Err(e));
                },
                Poll::Ready(Some(Ok(row))) => {
                    if rows.held.is_none() {
                        rows.held = Some(row);
                    } else {
                        rows.extra = true;
                    }
                },
            }
        }
    }

    /// Pulls the row of a query that has at most one from its stream.
    pub fn query_row_opt<T, S>(&mut self, rows: &mut QueryResponse<T, S>) -> (r: Poll<
        Result<Option<T>, Error>,
    >)
        requires
            old(self)@.leased_to(old(rows)@.seq),
        ensures
            final(self)@.leased_to(final(rows)@.seq),
            final(rows)@ == old(rows)@.query_row_opt(old(self)@).0,
            final(self)@ == old(rows)@.query_row_opt(old(self)@).1,
            r == old(rows)@.query_row_opt(old(self)@).2,
    {
        loop
            invariant
                self@.leased_to(rows@.seq),
                rows@.query_row_opt(self@) == old(rows)@.query_row_opt(old(self)@),
            decreases rows@.distance(),
        {
            match rows.next(self) {
                Poll::Pending(w) => {
                    return Poll::Pending(w);
                },
                Poll::Ready(None) => {
                    let mut held: Option<T> = None;
                    core::mem::swap(&mut rows.held, &mut held);
                    return Poll::Ready(Ok(held));
                },
                Poll::Ready(Some(Err(e))) => {
                    return Poll::Ready(Err(e));
                },
                Poll::Ready(Some(Ok(row))) => {
                    if rows.held.is_none() && !rows.extra {
                        rows.held = Some(row);
                    } else {
                        rows.extra = true;
                        self.taint();
                        return Poll::Ready(Err(Error::Protocol(Violation::ExtraRow)));
                    }
                },
            }
        }
    }
}


/// Driving an exchange never puts input back, and a reply that carries
/// rows has consumed some.
pub proof fn lemma_poll_consumes(seq: SequenceModel, conn: ConnectionModel)
    ensures
        seq.spec_poll(conn).1.reader.buf.len() <= conn.reader.buf.len(),
        seq.spec_poll(conn).2 matches Poll::Ready(Ok(Reply::Data(_))) ==> seq.spec_poll(
            conn,
        ).1.reader.buf.len() < conn.reader.buf.len(),
    decreases conn.reader.buf.len(),
{
    lemma_message_consumes(conn.reader);
    let (taken, m) = conn.next_message();
    if !(seq.stage is Idle) && !(seq.stage is Encoding) {
        if let Poll::Ready(Ok(msg)) = m {
            lemma_on_message_keeps_reader(seq, taken, msg);
            let (after, next, out) = seq.spec_on_message(taken, msg);
            if out is None && next.reader.buf.len() < conn.reader.buf.len() {
                lemma_poll_consumes(after, next);
            }
        }
    }
}

/// The collected rows of a command as a mathematical value.
#[verifier::ext_equal]
pub struct BlobsModel {
    /// The lease that the collection holds.
    pub seq: SequenceModel,
    /// The rows collected so far, oldest first, undecoded.
    pub data: Seq<Vec<u8>>,
}

impl BlobsModel {
    /// Collecting as far as the buffered input carries: every batch of
    /// rows joins the collection, and the completion status ends it. A
    /// reply that a collection cannot get ends it as an inconsistent use
    /// and leaves the connection dirty.
    pub open spec fn poll(self, conn: ConnectionModel) -> (
        BlobsModel,
        ConnectionModel,
        Poll<Result<Vec<u8>, Error>>,
    )
        decreases conn.reader.buf.len(),
    {
        let (seq, next, r) = self.seq.spec_poll(conn);
        match r {
            Poll::Pending(w) => (BlobsModel { seq, ..self }, next, Poll::Pending(w)),
            Poll::Ready(Ok(Reply::Data(chunks))) => if next.reader.buf.len()
                < conn.reader.buf.len() {
                (BlobsModel { seq, data: self.data + chunks@ }).poll(next)
            } else {
                (BlobsModel { seq, ..self }, next, Poll::Pending(Wait::Receive))
            },
            Poll::Ready(Ok(Reply::Status(status))) => (
                BlobsModel { seq, ..self },
                next,
                Poll::Ready(Ok(status)),
            ),
            Poll::Ready(Ok(_)) => (
                BlobsModel { seq, ..self },
                next.dirtied(),
                Poll::Ready(Err(Error::ClientInconsistent)),
            ),
            Poll::Ready(Err(e)) => (BlobsModel { seq, ..self }, next, Poll::Ready(Err(e))),
        }
    }
}

/// The rows of a command, collected undecoded.
pub struct Blobs {
    seq: Sequence,
    data: Vec<Vec<u8>>,
}

impl View for Blobs {
    type V = BlobsModel;

    closed spec fn view(&self) -> BlobsModel {
        BlobsModel { seq: self.seq@, data: self.data@ }
    }
}

impl Sequence {
    /// Turns the lease into the collection of the rows of the command it
    /// has executed. After the completion nothing but `ReadyForCommand`
    /// may come.
    pub fn response_blobs(self) -> (r: Blobs)
        requires
            self@.active,
        ensures
            r@ == (BlobsModel { seq: self@.at(Stage::Collecting), data: Seq::empty() }),
    {
        let mut seq = self;
        seq.set_stage(Stage::Collecting);
        Blobs { seq, data: Vec::new() }
    }
}

impl Blobs {
    /// The rows collected so far.
    pub fn data(&self) -> (d: &Vec<Vec<u8>>)
        ensures
            d@ == self@.data,
    {
        &self.data
    }

    /// The lease that the collection holds.
    pub fn sequence(&self) -> (s: &Sequence)
        ensures
            s@ == self@.seq,
    {
        &self.seq
    }

    /// Collects rows until the command has completed.
    pub fn poll(&mut self, conn: &mut Connection) -> (r: Poll<Result<Vec<u8>, Error>>)
        requires
            old(conn)@.leased_to(old(self)@.seq),
        ensures
            final(conn)@.leased_to(final(self)@.seq),
            final(self)@ == old(self)@.poll(old(conn)@).0,
            final(conn)@ == old(self)@.poll(old(conn)@).1,
            r == old(self)@.poll(old(conn)@).2,
    {
        loop
            invariant
                conn@.leased_to(self@.seq),
                self@.poll(conn@) == old(self)@.poll(old(conn)@),
            decreases conn@.reader.buf.len(),
        {
            proof {
                lemma_poll_consumes(self.seq@, conn@);
            }
            match self.seq.poll(conn) {
                Poll::Pending(w) => {
                    return Poll::Pending(w);
                },
                Poll::Ready(Ok(Reply::Data(mut chunks))) => {
                    self.data.append(&mut chunks);
                },
                Poll::Ready(Ok(Reply::Status(status))) => {
                    return Poll::Ready(Ok(status));
                },
                Poll::Ready(Ok(_)) => {
                    conn.taint();
                    return Poll::Ready(Err(Error::ClientInconsistent));
                },
                Poll::Ready(Err(e)) => {
                    return Poll::Ready(Err(e));
                },
            }
        }
    }
}

} // verus!
