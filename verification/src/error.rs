//! The failures that the client reports.

use vstd::prelude::*;

verus! {

/// Why an operation on a channel, or a conversion of one of its frames, did
/// not succeed.
#[derive(Debug, Clone, Copy, PartialEq, Eq, Hash, Structural)]
pub enum ChannelError {
    /// The upgrade request could not be put together.
    HandshakeError,
    /// The peer turned the upgrade down.
    ConnectionRefused,
    /// The network or the TLS layer failed.
    TransportError,
    /// A value could not be written as text, or a text matched no schema.
    SerializationError,
    /// The peer answered with an error envelope.
    ApplicationError,
    /// More keepalives in a row than the channel tolerates.
    LivenessTimeout,
    /// The peer sent a close frame.
    PeerClosed,
    /// The channel is not open.
    ConnectionClosed,
}

/// Why the lookup of a payable request for a lightning address failed.
#[derive(Debug, Clone, Copy, PartialEq, Eq, Hash, Structural)]
pub enum LnAddressError {
    /// The address has no `@`.
    InvalidAddress,
    /// The amount is below what the receiver accepts.
    AmountTooLow,
    /// A reply was not the JSON that was asked for.
    Malformed,
    /// The payment request is no BOLT11 invoice.
    InvalidInvoice,
    /// A reply came in when none was awaited.
    NothingPending,
}

} // verus!
