use vstd::prelude::*;

verus! {

/// The kinds of failure that buffers and sockets report.
///
/// `Exhausted` and `Rejected` are produced by this library; the other kinds
/// are for the callbacks that callers hand in, and are passed through as they
/// come.
#[derive(Clone, Copy, Debug, PartialEq, Eq, Structural)]
pub enum Error {
    /// No room in a buffer, nothing in a buffer, or a destination too small.
    Exhausted,
    /// A datagram that is not addressed to this socket.
    Rejected,
    /// A packet shorter than its framing says.
    Truncated,
    /// A packet whose contents cannot be parsed.
    Malformed,
    /// A packet of a kind that is not handled.
    Unrecognized,
}

} // verus!
