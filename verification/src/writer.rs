//! The frame writer: serialises a batch of messages into the output
//! buffer, from where the caller writes it to the stream in one piece.

use crate::codec::encode_message;
use crate::errors::Error;
use crate::message::{wire_all, ClientMessage, ProtocolVersion};
use vstd::prelude::*;

verus! {

/// The writer as a mathematical value.
#[verifier::ext_equal]
pub struct WriterModel {
    pub proto: ProtocolVersion,
    /// Output that was queued and not written yet.
    pub outbuf: Seq<u8>,
    /// Whether a write to the stream has failed.
    pub broken: bool,
}

impl WriterModel {
    /// The writer after a batch was serialised: the buffer holds the batch
    /// and nothing else, or nothing at all where a message of the batch
    /// cannot be encoded.
    pub open spec fn send(self, wire: Option<Seq<u8>>) -> (WriterModel, Result<(), Error>) {
        match wire {
            Some(bytes) => (WriterModel { outbuf: bytes, ..self }, Ok(())),
            None => (WriterModel { outbuf: Seq::empty(), ..self }, Err(Error::ClientEncoding)),
        }
    }
}

/// The wire form of a batch grows by one message at a time.
pub proof fn lemma_wire_all_step(msgs: Seq<ClientMessage>, i: int)
    requires
        0 <= i < msgs.len(),
    ensures
        wire_all(msgs.take(i + 1)) == match (wire_all(msgs.take(i)), msgs[i].wire()) {
            (Some(head), Some(tail)) => Some(head + tail),
            _ => None,
        },
{
    assert(msgs.take(i + 1).drop_last() =~= msgs.take(i));
}

/// The wire form of a batch of two messages.
pub proof fn lemma_wire_all_pair(a: ClientMessage, b: ClientMessage)
    ensures
        wire_all(seq![a, b]) == match (a.wire(), b.wire()) {
            (Some(head), Some(tail)) => Some(head + tail),
            _ => None,
        },
        wire_all(seq![a]) == a.wire(),
{
    let two = seq![a, b];
    assert(two.drop_last() =~= seq![a]);
    assert(seq![a].drop_last() =~= Seq::<ClientMessage>::empty());
    assert(wire_all(Seq::<ClientMessage>::empty()) == Some(Seq::<u8>::empty()));
    if a.wire() is Some {
        assert(Seq::<u8>::empty() + a.wire()->0 =~= a.wire()->0);
    }
}

/// Serialises client messages for the stream.
pub struct Writer {
    proto: ProtocolVersion,
    outbuf: Vec<u8>,
    broken: bool,
}

impl View for Writer {
    type V = WriterModel;

    closed spec fn view(&self) -> WriterModel {
        WriterModel { proto: self.proto, outbuf: self.outbuf@, broken: self.broken }
    }
}

impl Writer {
    /// A writer with nothing queued.
    pub fn new(proto: ProtocolVersion) -> (w: Writer)
        ensures
            w@ == (WriterModel { proto, outbuf: Seq::empty(), broken: false }),
    {
        Writer { proto, outbuf: Vec::new(), broken: false }
    }

    /// The bytes that wait to be written to the stream.
    pub fn pending(&self) -> (bytes: &Vec<u8>)
        ensures
            bytes@ == self@.outbuf,
    {
        &self.outbuf
    }

    /// Whether a write to the stream has failed.
    pub fn is_broken(&self) -> (b: bool)
        ensures
            b == self@.broken,
    {
        self.broken
    }

    /// Notes that the pending bytes were written.
    pub fn flushed(&mut self)
        ensures
            final(self)@ == (WriterModel { outbuf: Seq::empty(), ..old(self)@ }),
    {
        self.outbuf.clear();
    }

    /// Notes that writing to the stream failed.
    pub fn fail(&mut self)
        ensures
            final(self)@ == (WriterModel { broken: true, ..old(self)@ }),
    {
        self.broken = true;
    }

    /// Clears the output buffer, then serialises each message in order
    /// into it.
    pub fn send_messages(&mut self, msgs: &Vec<ClientMessage>) -> (r: Result<(), Error>)
        ensures
            final(self)@ == old(self)@.send(wire_all(msgs@)).0,
            r == old(self)@.send(wire_all(msgs@)).1,
    {
        self.outbuf.clear();
        let mut i: usize = 0;
        while i < msgs.len()
            invariant
                i <= msgs.len(),
                wire_all(msgs@.take(i as int)) == Some(self.outbuf@),
                self.proto == old(self).proto,
                self.broken == old(self).broken,
            decreases msgs.len() - i,
        {
            proof {
                lemma_wire_all_step(msgs@, i as int);
            }
            match encode_message(&self.proto, &msgs[i]) {
                Some(mut bytes) => {
                    self.outbuf.append(&mut bytes);
                },
                None => {
                    proof {
                        lemma_wire_all_none(msgs@, i as int + 1);
                    }
                    self.outbuf.clear();
                    return Err(Error::ClientEncoding);
                },
            }
            i += 1;
        }
        assert(msgs@.take(i as int) =~= msgs@);
        Ok(())
    }
}

/// A batch with a prefix that cannot be encoded cannot be encoded.
pub proof fn lemma_wire_all_none(msgs: Seq<ClientMessage>, i: int)
    requires
        0 <= i <= msgs.len(),
        wire_all(msgs.take(i)) is None,
    ensures
        wire_all(msgs) is None,
    decreases msgs.len() - i,
{
    if i < msgs.len() {
        lemma_wire_all_step(msgs, i);
        lemma_wire_all_none(msgs, i + 1);
    } else {
        assert(msgs.take(i) =~= msgs);
    }
}

} // verus!
