use vstd::prelude::*;

verus! {

/// Errors raised while framing or parsing a single packet.
#[derive(Clone, Copy, Debug, PartialEq, Eq, Structural)]
pub enum PacketError {
    /// The underlying stream faulted.
    IoError,
    /// The declared length or the format of a field did not match.
    FormatError,
    /// The stream ended before a field was complete.
    InsufficientDataError,
    /// The declared packet length was below the four code bytes.
    PacketTooSmall,
}

/// Errors that end a client session.
#[derive(Clone, Copy, Debug, PartialEq, Eq, Structural)]
pub enum BarrierError {
    /// The transport closed or a deadline passed.
    Disconnected,
    /// The TCP connection could not be established.
    TcpError,
    /// A packet could not be parsed.
    ProtocolError(PacketError),
}

} // verus!
