//! The frames that must not be handed to the decoder of `edgedb_protocol`.
//!
//! On two kinds of message the decoder reads on without looking at what is
//! left of the frame. It then does not come back with an answer: it
//! panics, or asks for more memory than any machine has. The library finds
//! those frames itself, by walking the lengths that the frame announces,
//! and never hands them over.

use crate::message::be32_value;
use vstd::prelude::*;

verus! {

/// The number that two bytes in network order stand for.
pub open spec fn be16_value(b: Seq<u8>) -> int
    recommends
        b.len() == 2,
{
    b[0] * 0x100 + b[1]
}

/// Where a walk along the lengths of a frame has come to.
pub enum Walk {
    /// It stands at this position, with everything before it in place.
    At(int),
    /// The frame ends before something that the decoder looks for first:
    /// the decoder answers with an error.
    Fails,
    /// The frame ends before something that the decoder reads unasked.
    Overruns,
}

/// Where the byte string that starts at `pos` behind its length ends, if
/// the frame holds all of it.
pub open spec fn blob_end(frame: Seq<u8>, pos: int) -> Option<int> {
    if frame.len() - pos < 4 {
        None
    } else {
        let n = be32_value(frame.subrange(pos, pos + 4));
        if frame.len() - (pos + 4) < n {
            None
        } else {
            Some(pos + 4 + n)
        }
    }
}

/// Walking `count` header entries from `pos`: each is a key of two bytes,
/// which the decoder reads unasked, and a byte string behind its length.
pub open spec fn walk_headers(frame: Seq<u8>, pos: int, count: nat) -> Walk
    decreases count,
{
    if count == 0 {
        Walk::At(pos)
    } else if frame.len() - pos < 2 {
        Walk::Overruns
    } else {
        match blob_end(frame, pos + 2) {
            Some(end) => walk_headers(frame, end, (count - 1) as nat),
            None => Walk::Fails,
        }
    }
}

/// Walking `count` extensions of a `ServerHandshake` from `pos`: each is a
/// name behind its length, a count of two bytes, and that many header
/// entries. Whether a name is text is not looked at; a name that is not
/// makes the decoder stop there with an error.
pub open spec fn walk_extensions(frame: Seq<u8>, pos: int, count: nat) -> Walk
    decreases count,
{
    if count == 0 {
        Walk::At(pos)
    } else {
        match blob_end(frame, pos) {
            Some(name_end) => if frame.len() - name_end < 2 {
                Walk::Fails
            } else {
                let headers = be16_value(frame.subrange(name_end, name_end + 2));
                match walk_headers(frame, name_end + 2, headers as nat) {
                    Walk::At(end) => walk_extensions(frame, end, (count - 1) as nat),
                    stopped => stopped,
                }
            },
            None => Walk::Fails,
        }
    }
}

/// Whether the frame of a `ServerHandshake` ends before the key of a
/// header entry that it announces. Behind the five bytes of the frame
/// header stand two version numbers and the count of extensions.
pub open spec fn handshake_overruns(frame: Seq<u8>) -> bool {
    frame.len() >= 11 && walk_extensions(
        frame,
        11,
        be16_value(frame.subrange(9, 11)) as nat,
    ) is Overruns
}

/// Whether the frame of an `Authentication` announces more SASL methods
/// than it has room for. Behind the five bytes of the frame header stand
/// the status, which is 10 for a list of methods, and their count; a method
/// takes four bytes at least.
pub open spec fn sasl_overflows(frame: Seq<u8>) -> bool {
    frame.len() >= 13 && be32_value(frame.subrange(5, 9)) == 0x0a && be32_value(
        frame.subrange(9, 13),
    ) * 4 > frame.len() - 13
}

/// Whether a whole frame can be handed to the decoder.
pub open spec fn is_safe_to_decode(frame: Seq<u8>) -> bool {
    &&& frame.len() >= 5
    &&& frame[0] == 0x76 ==> !handshake_overruns(frame)
    &&& frame[0] == 0x52 ==> !sasl_overflows(frame)
}

/// Where a walk has come to, as the walking code has it.
enum Walked {
    At(usize),
    Fails,
    Overruns,
}

impl View for Walked {
    type V = Walk;

    closed spec fn view(&self) -> Walk {
        match *self {
            Walked::At(pos) => Walk::At(pos as int),
            Walked::Fails => Walk::Fails,
            Walked::Overruns => Walk::Overruns,
        }
    }
}

/// Reads two bytes in network order.
fn read_be16(frame: &Vec<u8>, pos: usize) -> (n: u16)
    requires
        pos + 2 <= frame@.len(),
    ensures
        n == be16_value(frame@.subrange(pos as int, pos + 2)),
{
    let len: usize = frame.len();
    assert(pos + 2 <= len);
    let b0: u16 = frame[pos] as u16;
    let b1: u16 = frame[pos + 1] as u16;
    assert(frame@.subrange(pos as int, pos + 2)[0] == frame@[pos as int]);
    assert(frame@.subrange(pos as int, pos + 2)[1] == frame@[pos + 1]);
    b0 * 0x100 + b1
}

/// Reads four bytes in network order.
fn read_be32(frame: &Vec<u8>, pos: usize) -> (n: u32)
    requires
        pos + 4 <= frame@.len(),
    ensures
        n == be32_value(frame@.subrange(pos as int, pos + 4)),
{
    let len: usize = frame.len();
    assert(pos + 4 <= len);
    let b0: u32 = frame[pos] as u32;
    let b1: u32 = frame[pos + 1] as u32;
    let b2: u32 = frame[pos + 2] as u32;
    let b3: u32 = frame[pos + 3] as u32;
    assert(frame@.subrange(pos as int, pos + 4)[0] == frame@[pos as int]);
    assert(frame@.subrange(pos as int, pos + 4)[1] == frame@[pos + 1]);
    assert(frame@.subrange(pos as int, pos + 4)[2] == frame@[pos + 2]);
    assert(frame@.subrange(pos as int, pos + 4)[3] == frame@[pos + 3]);
    b0 * 0x100_0000 + b1 * 0x1_0000 + b2 * 0x100 + b3
}

/// Finds the end of the byte string that starts at `pos` behind its
/// length.
fn find_blob_end(frame: &Vec<u8>, pos: usize) -> (end: Option<usize>)
    requires
        pos <= frame@.len(),
    ensures
        match end {
            Some(end) => blob_end(frame@, pos as int) == Some(end as int) && end <= frame@.len(),
            None => blob_end(frame@, pos as int) is None,
        },
{
    if frame.len() - pos < 4 {
        return None;
    }
    let n: u32 = read_be32(frame, pos);
    let left: usize = frame.len() - (pos + 4);
    if (left as u64) < (n as u64) {
        None
    } else {
        Some(pos + 4 + n as usize)
    }
}

/// Walks `count` header entries from `pos`.
fn headers_from(frame: &Vec<u8>, pos: usize, count: u16) -> (w: Walked)
    requires
        pos <= frame@.len(),
    ensures
        w@ == walk_headers(frame@, pos as int, count as nat),
        w matches Walked::At(end) ==> end <= frame@.len(),
{
    let mut at: usize = pos;
    let mut left: u16 = count;
    while left > 0
        invariant
            at <= frame@.len(),
            walk_headers(frame@, at as int, left as nat) == walk_headers(
                frame@,
                pos as int,
                count as nat,
            ),
        decreases left,
    {
        if frame.len() - at < 2 {
            return Walked::Overruns;
        }
        match find_blob_end(frame, at + 2) {
            Some(end) => {
                at = end;
                left = left - 1;
            },
            None => {
                return Walked::Fails;
            },
        }
    }
    Walked::At(at)
}

/// Walks `count` extensions from `pos`.
fn extensions_from(frame: &Vec<u8>, pos: usize, count: u16) -> (w: Walked)
    requires
        pos <= frame@.len(),
    ensures
        w@ == walk_extensions(frame@, pos as int, count as nat),
{
    let mut at: usize = pos;
    let mut left: u16 = count;
    while left > 0
        invariant
            at <= frame@.len(),
            walk_extensions(frame@, at as int, left as nat) == walk_extensions(
                frame@,
                pos as int,
                count as nat,
            ),
        decreases left,
    {
        let name_end = match find_blob_end(frame, at) {
            Some(end) => end,
            None => {
                return Walked::Fails;
            },
        };
        if frame.len() - name_end < 2 {
            return Walked::Fails;
        }
        let headers: u16 = read_be16(frame, name_end);
        match headers_from(frame, name_end + 2, headers) {
            Walked::At(end) => {
                at = end;
                left = left - 1;
            },
            stopped => {
                return stopped;
            },
        }
    }
    Walked::At(at)
}

/// Tells whether a whole frame can be handed to the decoder.
pub fn safe_to_decode(frame: &Vec<u8>) -> (safe: bool)
    requires
        frame@.len() >= 5,
    ensures
        safe == is_safe_to_decode(frame@),
{
    let code: u8 = frame[0];
    if code == 0x76 {
        if frame.len() < 11 {
            return true;
        }
        let extensions: u16 = read_be16(frame, 9);
        match extensions_from(frame, 11, extensions) {
            Walked::Overruns => false,
            _ => true,
        }
    } else if code == 0x52 {
        if frame.len() < 13 {
            return true;
        }
        let status: u32 = read_be32(frame, 5);
        let methods: u32 = read_be32(frame, 9);
        let room: usize = frame.len() - 13;
        !(status == 0x0a && (methods as u64) * 4 > room as u64)
    } else {
        true
    }
}

} // verus!
