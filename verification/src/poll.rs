//! How an operation tells its caller what it waits for.

use vstd::prelude::*;

verus! {

/// What the caller has to do before an operation can go on.
#[derive(Clone, Copy, Debug, PartialEq, Eq, Structural)]
pub enum Wait {
    /// Write the queued output to the stream, then report how it went.
    Send,
    /// Read from the stream, then report what came.
    Receive,
    /// As `Receive`, but the message that is waited for is due within this
    /// many seconds of the first such wait, however many reads it takes.
    ReceiveWithin(u64),
    /// Encode the query's arguments against the input descriptor and hand
    /// them in.
    Arguments,
    /// Decode the rows that wait and hand them in.
    Rows,
}

/// The state of an operation that the caller drives.
#[derive(Clone, Debug, PartialEq, Eq)]
pub enum Poll<T> {
    Ready(T),
    Pending(Wait),
}

} // verus!
