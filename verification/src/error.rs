//! The failures that a session can meet, by the layer that reports them.

use vstd::prelude::*;

verus! {

/// Why a connection could not be opened.
#[derive(Clone, Copy, Debug, PartialEq, Eq, Structural)]
pub enum ConnectError {
    /// The network failed; the caller may try again.
    Network,
    /// The service refused the credentials; trying again cannot help.
    AuthorizationRejected,
}

impl ConnectError {
    /// Whether a caller may reasonably try to connect again.
    pub fn is_retryable(&self) -> (r: bool)
        ensures
            r == (*self == ConnectError::Network),
    {
        matches!(*self, ConnectError::Network)
    }
}

/// Why an inbound frame could not be read as an event. Neither ends the
/// session.
#[derive(Clone, Copy, Debug, PartialEq, Eq, Structural)]
pub enum DecodeError {
    /// The discriminator names no event that this client knows.
    UnknownVariant,
    /// The discriminator is missing, or a field that its event requires is.
    Malformed,
}

/// The transport could not deliver an outbound frame.
#[derive(Clone, Copy, Debug, PartialEq, Eq, Structural)]
pub enum SendError {
    Transport,
}

/// Why no further frame will arrive.
#[derive(Clone, Copy, Debug, PartialEq, Eq, Structural)]
pub enum RecvError {
    /// The connection was closed in an orderly way.
    Closed,
    /// The transport failed unexpectedly.
    Aborted,
}

/// A misuse of the protocol by the caller, reported to the call that made it.
#[derive(Clone, Copy, Debug, PartialEq, Eq, Structural)]
pub enum ProtocolError {
    /// An event was submitted before the session became active or after it
    /// began to close.
    NotActive,
    /// A tool-call result names an id that is not awaiting a result.
    UnknownOrResolvedToolCall,
}

} // verus!
