//! The wire messages as the client core reads them: an operation tag, an
//! optional correlation id, and an opaque payload reduced to what correlation
//! needs. Encoding and decoding of the payloads themselves are out of scope
//! and live with the transport.

use vstd::prelude::*;
use crate::notification::{DomainHash, Notification};
use crate::ops::{EventType, RpcApiOps, SubscribeCommand};

verus! {

/// The payload of an outbound request, reduced to the part the client core
/// reads: the distinguishing key, if this operation has one (for `GetBlock`
/// the requested block hash), used by the queue-based resolver so that
/// interleaved calls for different keys do not cross-match.
#[derive(Clone, Copy, Debug, PartialEq, Eq, Structural)]
pub struct RequestPayload {
    pub key: Option<u64>,
    /// For the subscribe family: whether the server-side subscription is
    /// started or stopped.
    pub command: Option<SubscribeCommand>,
}

/// An outbound request message.
#[derive(Clone, Copy, Debug, PartialEq, Eq, Structural)]
pub struct RpcRequest {
    pub op: RpcApiOps,
    /// The correlation id, present iff the server negotiated per-message ids.
    pub id: Option<u64>,
    pub payload: Option<RequestPayload>,
}

/// The payload of an inbound message: either the reply to a call, echoing the
/// distinguishing key of its request, or a server-initiated notification.
#[derive(Clone, Debug)]
pub enum ResponsePayload {
    Call { key: Option<u64> },
    Notify { notification: Notification },
}

/// An inbound message from the server.
#[derive(Clone, Debug)]
pub struct RpcResponse {
    pub op: RpcApiOps,
    /// The correlation id, present iff the server negotiated per-message ids.
    pub id: Option<u64>,
    pub payload: Option<ResponsePayload>,
}

impl RpcResponse {
    /// Whether this inbound message is a notification rather than the reply
    /// to a pending call.
    pub open spec fn spec_is_notification(self) -> bool {
        self.payload matches Some(p) && p is Notify
    }

    pub fn is_notification(&self) -> (r: bool)
        ensures
            r == self.spec_is_notification(),
    {
        match &self.payload {
            Some(ResponsePayload::Notify { .. }) => true,
            _ => false,
        }
    }
}

/// The wire subscribe or unsubscribe request for an event type: its
/// operation tag, no correlation id yet, no distinguishing key, and the
/// start-or-stop command.
pub open spec fn spec_subscribe_request(event: EventType, command: SubscribeCommand) -> RpcRequest {
    RpcRequest {
        op: crate::ops::spec_subscribe_op(event),
        id: None,
        payload: Some(RequestPayload { key: None, command: Some(command) }),
    }
}

/// Builds the wire subscribe or unsubscribe request for an event type. The
/// request goes through the same send queue as regular calls and its
/// acknowledgement correlates like any other call.
pub fn build_subscribe_request(event: EventType, command: SubscribeCommand) -> (r: RpcRequest)
    ensures
        r == spec_subscribe_request(event, command),
{
    RpcRequest {
        op: crate::ops::subscribe_op(event),
        id: None,
        payload: Some(RequestPayload { key: None, command: Some(command) }),
    }
}

/// Builds a ping request. One of the typed per-operation wrappers of the
/// facade: each sets its operation tag and distinguishing key; the codec
/// encodes the payload itself.
pub fn ping_request() -> (r: RpcRequest)
    ensures
        r.op == RpcApiOps::Ping,
        r.id is None,
        r.payload matches Some(p) && p.key is None && p.command is None,
{
    RpcRequest { op: RpcApiOps::Ping, id: None, payload: Some(RequestPayload { key: None, command: None }) }
}

/// Builds the GetInfo probe sent at handshake time.
pub fn get_info_request() -> (r: RpcRequest)
    ensures
        r.op == RpcApiOps::GetInfo,
        r.id is None,
        r.payload matches Some(p) && p.key is None && p.command is None,
{
    RpcRequest {
        op: RpcApiOps::GetInfo,
        id: None,
        payload: Some(RequestPayload { key: None, command: None }),
    }
}

/// Builds a GetBlock request. The requested block hash is the distinguishing
/// key, so that the queue-based resolver never cross-matches interleaved
/// calls for different blocks.
pub fn get_block_request(hash: DomainHash) -> (r: RpcRequest)
    ensures
        r.op == RpcApiOps::GetBlock,
        r.id is None,
        r.payload matches Some(p) && p.key == Some(hash.value) && p.command is None,
{
    RpcRequest {
        op: RpcApiOps::GetBlock,
        id: None,
        payload: Some(RequestPayload { key: Some(hash.value), command: None }),
    }
}

} // verus!
