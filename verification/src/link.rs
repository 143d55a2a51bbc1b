//! What all clients share: how a link comes up, what comes in on it and why it is given up.

use vstd::prelude::*;

verus! {

/// How many seconds a client waits for a connection.
pub const CONNECT_TIMEOUT_SECS: u64 = 5;

/// How many seconds a client waits before it connects again.
pub const RETRY_DELAY_SECS: u64 = 5;

/// How many messages wait in a queue between two tasks.
pub const QUEUE_CAPACITY: usize = 1024;

/// How an attempt to connect ended.
#[derive(Clone, Copy, Debug, PartialEq, Eq, Structural)]
pub enum Dial {
    /// The link is up.
    Connected,
    /// The other side could not be reached.
    Failed,
    /// There was no answer in time.
    TimedOut,
}

/// What came in on a link.
pub enum Inbound<M> {
    /// A message.
    Message(M),
    /// Something that could not be read as a message.
    Unreadable,
    /// The end of the stream.
    Closed,
}

/// Why a link is given up. The client then waits and connects again.
#[derive(Clone, Copy, Debug, PartialEq, Eq, Structural)]
pub enum Fault {
    /// The other side could not be reached.
    Unreachable,
    /// There was no answer in time.
    TimedOut,
    /// The stream ended.
    Closed,
    /// The answer to a greeting could not be read.
    Unreadable,
    /// The peer runs an older version of the protocol.
    OlderVersion,
    /// The peer is neither a beacon nor a validator.
    WrongNodeType,
    /// The peer has a different genesis block.
    DifferentGenesis,
    /// The block header in a message could not be read.
    BadBlockHeader,
    /// The peer took its leave.
    Disconnected,
}

} // verus!
