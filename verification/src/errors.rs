//! Error taxonomy of the client, opaque to the wire.

use vstd::prelude::*;

verus! {

/// An error returned by the client to its caller.
#[derive(Clone, Copy, Debug, PartialEq, Eq, Structural)]
pub enum RpcClientError {
    /// The caller handed `call` a request without a payload (caller bug).
    MissingRequestPayload,
    /// The send path to the server is closed; the session no longer accepts calls.
    ChannelRecvError,
    /// The pending request waited longer than the request timeout.
    Timeout,
    /// The session was shut down while the request was outstanding.
    Cancelled,
    /// A freshly drawn correlation id collided with a live pending request.
    DuplicateRequestId,
    /// The caller asked for a wire-level operation the server did not advertise.
    UnsupportedFeature,
    /// The given listener id is not registered.
    ListenerNotFound,
}

} // verus!
