//! The frame reader: takes whole frames off the buffered input, decodes
//! them and follows the transaction state.

use crate::codec::{decode_message, message_of};
use crate::errors::Error;
use crate::message::{be32_value, ProtocolVersion, ServerMessage, TransactionState};
use crate::poll::{Poll, Wait};
use vstd::prelude::*;

verus! {

/// How the stream let the reader down.
#[derive(Clone, Copy, Debug, PartialEq, Eq, Structural)]
pub enum Fault {
    /// A read returned no bytes.
    Eos,
    /// A read failed.
    Broken,
    /// A read did not finish before its deadline.
    TimedOut,
}

impl Fault {
    /// The error that the fault surfaces as.
    pub open spec fn spec_error(&self) -> Error {
        match *self {
            Fault::Eos => Error::ClientConnectionEos,
            Fault::Broken => Error::ClientConnection,
            Fault::TimedOut => Error::ClientConnectionTimeout,
        }
    }

    #[verifier::when_used_as_spec(spec_error)]
    pub fn error(&self) -> (e: Error)
        ensures
            e == self.spec_error(),
    {
        match self {
            Fault::Eos => Error::ClientConnectionEos,
            Fault::Broken => Error::ClientConnection,
            Fault::TimedOut => Error::ClientConnectionTimeout,
        }
    }
}

/// The size of the frame that starts a buffer, header included, once the
/// five bytes of the header are there.
pub open spec fn frame_size(buf: Seq<u8>) -> Option<int> {
    if buf.len() >= 5 {
        Some(be32_value(buf.subrange(1, 5)) + 1)
    } else {
        None
    }
}

/// Whether a buffer starts with a whole frame.
pub open spec fn has_frame(buf: Seq<u8>) -> bool {
    frame_size(buf) matches Some(n) && buf.len() >= n
}

/// The reader as a mathematical value.
#[verifier::ext_equal]
pub struct ReaderModel {
    pub proto: ProtocolVersion,
    /// Input that was received and not consumed yet.
    pub buf: Seq<u8>,
    pub transaction_state: TransactionState,
    /// What the stream reported when it last failed to deliver.
    pub fault: Option<Fault>,
    /// The states that the `ReadyForCommand` messages consumed so far
    /// carried, oldest first. It starts with the state the handshake left.
    pub ready_log: Seq<TransactionState>,
}

impl ReaderModel {
    /// The transaction state is the one that the last `ReadyForCommand`
    /// reported.
    pub open spec fn wf(self) -> bool {
        self.ready_log.len() > 0 && self.ready_log.last() == self.transaction_state
    }

    /// The reader with `buf` as what is left of its input.
    pub open spec fn after(self, buf: Seq<u8>) -> ReaderModel {
        ReaderModel { buf, ..self }
    }

    /// The reader after a `ReadyForCommand` with this state was consumed.
    pub open spec fn record(self, state: TransactionState) -> ReaderModel {
        ReaderModel { transaction_state: state, ready_log: self.ready_log.push(state), ..self }
    }

    /// Taking the next message off the buffer.
    ///
    /// With a whole frame buffered, the frame leaves the buffer and its
    /// message, or the error of decoding it, is the result; a
    /// `ReadyForCommand` is recorded on the way. A frame that claims to be
    /// shorter than its own header is an encoding error. Without a whole
    /// frame the reader is unchanged: the result is the stream's fault if
    /// there is one, else a request for more input.
    pub open spec fn message(self) -> (ReaderModel, Poll<Result<ServerMessage, Error>>) {
        if has_frame(self.buf) {
            let n = frame_size(self.buf)->0;
            let rest = ReaderModel { buf: self.buf.skip(n), ..self };
            if n < 5 {
                (rest, Poll::Ready(Err(Error::ProtocolEncoding)))
            } else {
                match message_of(self.proto, self.buf.take(n)) {
                    Ok(ServerMessage::ReadyForCommand(state)) => (
                        rest.record(state),
                        Poll::Ready(Ok(ServerMessage::ReadyForCommand(state))),
                    ),
                    r => (rest, Poll::Ready(r)),
                }
            }
        } else {
            match self.fault {
                Some(fault) => (self, Poll::Ready(Err(fault.spec_error()))),
                None => (self, Poll::Pending(Wait::Receive)),
            }
        }
    }

    /// Consuming messages up to and including the next `ReadyForCommand`.
    /// Every other message is dropped; an error or a need for input ends
    /// the wait where it stands.
    pub open spec fn wait_ready(self) -> (ReaderModel, Poll<Result<(), Error>>)
        decreases self.buf.len(),
    {
        let (next, r) = self.message();
        match r {
            Poll::Ready(Ok(ServerMessage::ReadyForCommand(_))) => (next, Poll::Ready(Ok(()))),
            Poll::Ready(Ok(_)) => if next.buf.len() < self.buf.len() {
                next.wait_ready()
            } else {
                (next, Poll::Pending(Wait::Receive))
            },
            Poll::Ready(Err(e)) => (next, Poll::Ready(Err(e))),
            Poll::Pending(w) => (next, Poll::Pending(w)),
        }
    }
}

/// Every message that leaves the buffer makes it shorter.
pub proof fn lemma_message_consumes(m: ReaderModel)
    ensures
        m.message().1 is Ready ==> m.message().0.fault == m.fault,
        m.message().1 matches Poll::Ready(Ok(_)) ==> m.message().0.buf.len() + 5 <= m.buf.len(),
        m.message().0.buf.len() <= m.buf.len(),
        m.message().0.proto == m.proto,
        m.wf() ==> m.message().0.wf(),
{
}

/// Pulls server messages off the buffered input.
pub struct Reader {
    proto: ProtocolVersion,
    buf: Vec<u8>,
    transaction_state: TransactionState,
    fault: Option<Fault>,
    ready_log: Ghost<Seq<TransactionState>>,
}

impl View for Reader {
    type V = ReaderModel;

    closed spec fn view(&self) -> ReaderModel {
        ReaderModel {
            proto: self.proto,
            buf: self.buf@,
            transaction_state: self.transaction_state,
            fault: self.fault,
            ready_log: self.ready_log@,
        }
    }
}

/// The size that the header at the start of `buf` announces for its
/// frame.
fn announced_size(buf: &Vec<u8>) -> (size: u64)
    requires
        buf@.len() >= 5,
    ensures
        Some(size as int) == frame_size(buf@),
{
    let b0: u64 = buf[1] as u64;
    let b1: u64 = buf[2] as u64;
    let b2: u64 = buf[3] as u64;
    let b3: u64 = buf[4] as u64;
    assert(buf@.subrange(1, 5)[0] == buf@[1]);
    assert(buf@.subrange(1, 5)[1] == buf@[2]);
    assert(buf@.subrange(1, 5)[2] == buf@[3]);
    assert(buf@.subrange(1, 5)[3] == buf@[4]);
    b0 * 0x100_0000 + b1 * 0x1_0000 + b2 * 0x100 + b3 + 1
}

impl Reader {
    /// A reader with nothing buffered, on a stream whose handshake ended in
    /// `transaction_state`.
    pub fn new(proto: ProtocolVersion, transaction_state: TransactionState) -> (r: Reader)
        ensures
            r@ == (ReaderModel {
                proto,
                buf: Seq::empty(),
                transaction_state,
                fault: None,
                ready_log: seq![transaction_state],
            }),
            r@.wf(),
    {
        let ghost log = Seq::<TransactionState>::empty().push(transaction_state);
        assert(log =~= seq![transaction_state]);
        Reader { proto, buf: Vec::new(), transaction_state, fault: None, ready_log: Ghost(log) }
    }

    /// The transaction state that the server last reported.
    pub fn transaction_state(&self) -> (s: TransactionState)
        ensures
            s == self@.transaction_state,
    {
        self.transaction_state
    }

    /// The protocol version that frames are decoded under.
    pub fn protocol(&self) -> (v: &ProtocolVersion)
        ensures
            *v == self@.proto,
    {
        &self.proto
    }

    /// How many received bytes wait to be consumed.
    pub fn buffered(&self) -> (n: usize)
        ensures
            n == self@.buf.len(),
    {
        self.buf.len()
    }

    /// Takes in bytes that were read from the stream.
    pub fn feed(&mut self, bytes: &[u8])
        ensures
            final(self)@ == (ReaderModel { buf: old(self)@.buf + bytes@, ..old(self)@ }),
    {
        let ghost before = self.buf@;
        self.buf.extend_from_slice(bytes);
        assert(self.buf@ =~= before + bytes@);
    }

    /// Notes that the stream failed to deliver.
    pub fn interrupt(&mut self, fault: Fault)
        ensures
            final(self)@ == (ReaderModel { fault: Some(fault), ..old(self)@ }),
    {
        self.fault = Some(fault);
    }

    /// Records the state that an already returned `ReadyForCommand`
    /// carried.
    pub fn consume_ready(&mut self, state: TransactionState)
        ensures
            final(self)@ == old(self)@.record(state),
    {
        self.transaction_state = state;
        self.ready_log = Ghost(self.ready_log@.push(state));
    }

    /// Takes the next message off the buffered input.
    pub fn message(&mut self) -> (r: Poll<Result<ServerMessage, Error>>)
        ensures
            final(self)@ == old(self)@.message().0,
            r == old(self)@.message().1,
    {
        let len: usize = self.buf.len();
        if len >= 5 {
            let size: u64 = announced_size(&self.buf);
            if len as u64 >= size {
                let n: usize = size as usize;
                let mut frame = self.buf.split_off(n);
                core::mem::swap(&mut self.buf, &mut frame);
                assert(frame@ == old(self).buf@.take(n as int));
                assert(self.buf@ == old(self).buf@.skip(n as int));
                if n < 5 {
                    return Poll::Ready(Err(Error::ProtocolEncoding));
                }
                let r = decode_message(&self.proto, &frame);
                match r {
                    Ok(ServerMessage::ReadyForCommand(state)) => {
                        self.consume_ready(state);
                        return Poll::Ready(Ok(ServerMessage::ReadyForCommand(state)));
                    },
                    r => {
                        return Poll::Ready(r);
                    },
                }
            }
        }
        match self.fault {
            Some(fault) => Poll::Ready(Err(fault.error())),
            None => Poll::Pending(Wait::Receive),
        }
    }

    /// Consumes messages until a `ReadyForCommand` has been taken.
    pub fn wait_ready(&mut self) -> (r: Poll<Result<(), Error>>)
        ensures
            final(self)@ == old(self)@.wait_ready().0,
            r == old(self)@.wait_ready().1,
    {
        loop
            invariant
                self@.wait_ready() == old(self)@.wait_ready(),
            decreases self@.buf.len(),
        {
            proof {
                lemma_message_consumes(self@);
            }
            match self.message() {
                Poll::Ready(Ok(ServerMessage::ReadyForCommand(_))) => {
                    return Poll::Ready(Ok(()));
                },
                Poll::Ready(Ok(_)) => {},
                Poll::Ready(Err(e)) => {
                    return Poll::Ready(Err(e));
                },
                Poll::Pending(w) => {
                    return Poll::Pending(w);
                },
            }
        }
    }
}

} // verus!
