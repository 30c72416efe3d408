//! The session core: lifecycle state machine, call registration, response
//! routing, timeout reaping, and shutdown.
//!
//! The session owns the resolver and decides; the asynchronous harness owns
//! the transport and performs. Every function here is a step of the state
//! machine: the harness calls it with the event it observed (a response
//! arrived, the stream closed, the reaper ticked, the caller asked to shut
//! down) and carries out the returned actions (send the queued requests,
//! complete the returned pendings with the right outcome).

use vstd::prelude::*;
use crate::errors::RpcClientError;
use crate::message::{RequestPayload, ResponsePayload, RpcRequest, RpcResponse};
use crate::notification::Notification;
use crate::ops::RpcApiOps;
use crate::resolver::{response_matches, DynResolver, Pending};

verus! {

pub const CONNECT_TIMEOUT_DURATION: u64 = 20_000;

pub const KEEP_ALIVE_DURATION: u64 = 5_000;

pub const REQUEST_TIMEOUT_DURATION: u64 = 5_000;

pub const TIMEOUT_MONITORING_INTERVAL: u64 = 1_000;

/// Relies on `rand::random`: a fresh sample of the standard distribution.
/// Nothing is promised of the value; callers state what holds of every
/// outcome.
pub assume_specification<T>[ rand::random::<T> ]() -> (r: T)
    where
        rand::distributions::Standard: rand::distributions::Distribution<T>,
;

/// The lifecycle of a session.
#[derive(Clone, Copy, Debug, PartialEq, Eq, Structural)]
pub enum SessionState {
    /// The transport is being opened and the handshake exchanged.
    Connecting,
    /// The handshake completed; calls are accepted.
    Ready,
    /// Shutdown was requested or the stream failed; no new calls.
    Draining,
    /// Background tasks have terminated and every pending was completed.
    Closed,
}

/// Where the session routes one inbound message.
#[derive(Clone, Debug)]
pub enum ResponseRouting {
    /// A server-initiated notification, to be dispatched to the notifier.
    Notify(Notification),
    /// The reply to this pending call: hand it to the pending's waiter.
    Completed(Pending),
    /// No pending matches; the response is dropped with a diagnostic.
    Unmatched,
    /// A response without a payload; nothing to route.
    Ignored,
}

/// The session core. Handles messages flowing to (requests) and from
/// (responses) the server over one duplex stream.
#[derive(Clone, Debug)]
pub struct Inner {
    pub state: SessionState,
    /// The server advertised wire unsubscribe commands at handshake.
    pub handle_stop_notify: bool,
    /// The server advertised per-message correlation ids at handshake.
    pub handle_message_id: bool,
    /// Matching responses with pending requests.
    pub resolver: DynResolver,
    /// The next completion handle token; monotonic.
    pub next_waiter: u64,
    /// Calls registered and not yet completed, timed out or cancelled.
    pub in_flight: usize,
    /// The model of the bounded FIFO send queue: requests the harness must
    /// hand to the transport writer, in enqueue order.
    pub send_queue: Vec<RpcRequest>,
    pub receiver_is_running: bool,
    pub timeout_is_running: bool,
    pub timeout_duration: u64,
    pub timeout_timer_interval: u64,
}

/// The distinguishing key of a request, read from its payload.
pub open spec fn spec_request_key(request: RpcRequest) -> Option<u64> {
    match request.payload {
        Some(p) => p.key,
        None => None,
    }
}

/// The distinguishing key echoed by a call reply, read from its payload.
pub open spec fn spec_response_key(response: RpcResponse) -> Option<u64> {
    match response.payload {
        Some(ResponsePayload::Call { key }) => key,
        _ => None,
    }
}

/// The pending inserted for a call registered in state `pre`.
pub open spec fn spec_new_pending(
    pre: Inner,
    op: RpcApiOps,
    request: RpcRequest,
    id: u64,
    now: u64,
    waiter: u64,
) -> Pending {
    Pending {
        op,
        id: if pre.handle_message_id {
            Some(id)
        } else {
            None
        },
        key: spec_request_key(request),
        deadline: (now + pre.timeout_duration) as u64,
        waiter,
    }
}

/// The request as stamped onto the wire: the correlation id is present iff
/// the server negotiated per-message ids.
pub open spec fn spec_stamped_request(
    pre: Inner,
    op: RpcApiOps,
    request: RpcRequest,
    id: u64,
) -> RpcRequest {
    RpcRequest {
        op,
        id: if pre.handle_message_id {
            Some(id)
        } else {
            None
        },
        payload: request.payload,
    }
}

/// Configuration and peers that a step leaves untouched.
pub open spec fn same_config(pre: Inner, post: Inner) -> bool {
    &&& post.handle_stop_notify == pre.handle_stop_notify
    &&& post.handle_message_id == pre.handle_message_id
    &&& post.timeout_duration == pre.timeout_duration
    &&& post.timeout_timer_interval == pre.timeout_timer_interval
    &&& post.resolver.is_id_based() == pre.resolver.is_id_based()
}

/// The successful effect of registering a call: one pending inserted at the
/// tail, the stamped request appended to the send queue, one more call in
/// flight, and nothing else moved.
pub open spec fn call_registered(
    pre: Inner,
    post: Inner,
    op: RpcApiOps,
    request: RpcRequest,
    id: u64,
    now: u64,
    waiter: u64,
) -> bool {
    &&& waiter == pre.next_waiter
    &&& post.next_waiter == pre.next_waiter + 1
    &&& post.state == pre.state
    &&& same_config(pre, post)
    &&& post.receiver_is_running == pre.receiver_is_running
    &&& post.timeout_is_running == pre.timeout_is_running
    &&& post.in_flight == pre.in_flight + 1
    &&& post.resolver.spec_pendings() == pre.resolver.spec_pendings().push(
        spec_new_pending(pre, op, request, id, now, waiter),
    )
    &&& post.send_queue@ == pre.send_queue@.push(spec_stamped_request(pre, op, request, id))
}

/// The effect of shutdown: the session is closed and quiescent, every pending
/// that was outstanding is handed back for completion with a Cancelled error,
/// and a second shutdown is a no-op.
pub open spec fn shutdown_rel(pre: Inner, post: Inner, cancelled: Seq<Pending>) -> bool {
    &&& post.state is Closed
    &&& post.resolver.spec_pendings().len() == 0
    &&& !post.receiver_is_running
    &&& !post.timeout_is_running
    &&& post.in_flight == 0
    &&& cancelled == pre.resolver.spec_pendings()
    &&& pre.state is Closed ==> post == pre && cancelled.len() == 0
    &&& same_config(pre, post)
    &&& post.next_waiter == pre.next_waiter
    &&& post.send_queue == pre.send_queue
    &&& post.wf()
}

impl Inner {
    pub open spec fn wf(self) -> bool {
        &&& self.resolver.wf()
        &&& self.resolver.is_id_based() == self.handle_message_id
        &&& self.in_flight == self.resolver.spec_pendings().len()
        &&& self.state is Closed ==> {
            &&& self.resolver.spec_pendings().len() == 0
            &&& !self.receiver_is_running
            &&& !self.timeout_is_running
        }
    }

    pub open spec fn spec_pendings(self) -> Seq<Pending> {
        self.resolver.spec_pendings()
    }

    /// Builds the session core as `connect` leaves it right after the
    /// handshake: capability flags recorded, the resolver variant chosen by
    /// the server's id capability, background tasks running, no pendings.
    pub fn new(handle_stop_notify: bool, handle_message_id: bool) -> (r: Inner)
        ensures
            r.wf(),
            r.state is Ready,
            r.handle_stop_notify == handle_stop_notify,
            r.handle_message_id == handle_message_id,
            r.resolver.is_id_based() == handle_message_id,
            r.spec_pendings().len() == 0,
            r.next_waiter == 0,
            r.in_flight == 0,
            r.send_queue@.len() == 0,
            r.receiver_is_running,
            r.timeout_is_running,
            r.timeout_duration == REQUEST_TIMEOUT_DURATION,
            r.timeout_timer_interval == TIMEOUT_MONITORING_INTERVAL,
    {
        Inner {
            state: SessionState::Ready,
            handle_stop_notify,
            handle_message_id,
            resolver: DynResolver::new(handle_message_id),
            next_waiter: 0,
            in_flight: 0,
            send_queue: Vec::new(),
            receiver_is_running: true,
            timeout_is_running: true,
            timeout_duration: REQUEST_TIMEOUT_DURATION,
            timeout_timer_interval: TIMEOUT_MONITORING_INTERVAL,
        }
    }

    pub fn handle_message_id(&self) -> (r: bool)
        ensures
            r == self.handle_message_id,
    {
        self.handle_message_id
    }

    pub fn handle_stop_notify(&self) -> (r: bool)
        ensures
            r == self.handle_stop_notify,
    {
        self.handle_stop_notify
    }

    /// Registers a call under the given correlation id: inserts a pending
    /// with deadline `now + timeout` and enqueues the stamped request. The
    /// returned token is the completion handle the caller awaits. Rejected
    /// when the request has no payload (caller bug), when the session no
    /// longer accepts calls, or when the id collides with a live pending
    /// (detected and dropped, never silently merged).
    pub fn call_with_id(
        &mut self,
        op: RpcApiOps,
        request: RpcRequest,
        id: u64,
        now: u64,
    ) -> (r: Result<u64, RpcClientError>)
        requires
            old(self).wf(),
            old(self).next_waiter < u64::MAX,
            now + old(self).timeout_duration <= u64::MAX,
        ensures
            final(self).wf(),
            request.payload is None ==> r == Err::<u64, RpcClientError>(
                RpcClientError::MissingRequestPayload,
            ) && *final(self) == *old(self),
            request.payload is Some && !(old(self).state is Ready) ==> r == Err::<
                u64,
                RpcClientError,
            >(RpcClientError::ChannelRecvError) && *final(self) == *old(self),
            request.payload is Some && old(self).state is Ready && old(self).handle_message_id
                && old(self).resolver.spec_contains_id(id) ==> r == Err::<u64, RpcClientError>(
                RpcClientError::DuplicateRequestId,
            ) && *final(self) == *old(self),
            request.payload is Some && old(self).state is Ready && (old(self).handle_message_id
                ==> !old(self).resolver.spec_contains_id(id)) ==> (r matches Ok(w)
                && call_registered(*old(self), *final(self), op, request, id, now, w)),
    {
        if request.payload.is_none() {
            return Err(RpcClientError::MissingRequestPayload);
        }
        match self.state {
            SessionState::Ready => {},
            _ => {
                return Err(RpcClientError::ChannelRecvError);
            },
        }
        let key = match request.payload {
            Some(p) => p.key,
            None => None,
        };
        let pending = Pending {
            op,
            id: if self.handle_message_id {
                Some(id)
            } else {
                None
            },
            key,
            deadline: now + self.timeout_duration,
            waiter: self.next_waiter,
        };
        let ok = self.resolver.register_request(pending);
        if !ok {
            return Err(RpcClientError::DuplicateRequestId);
        }
        let waiter = self.next_waiter;
        self.next_waiter = self.next_waiter + 1;
        self.in_flight = self.resolver.pendings_len();
        let stamped = RpcRequest {
            op,
            id: if self.handle_message_id {
                Some(id)
            } else {
                None
            },
            payload: request.payload,
        };
        self.send_queue.push(stamped);
        Ok(waiter)
    }

    /// Registers a call under a freshly drawn 64-bit id. Ids are drawn
    /// uniformly, so a collision with a live pending is negligible and is
    /// reported as programmer error rather than silently merged.
    pub fn call(&mut self, op: RpcApiOps, request: RpcRequest, now: u64) -> (r: Result<
        u64,
        RpcClientError,
    >)
        requires
            old(self).wf(),
            old(self).next_waiter < u64::MAX,
            now + old(self).timeout_duration <= u64::MAX,
        ensures
            final(self).wf(),
            request.payload is None ==> r == Err::<u64, RpcClientError>(
                RpcClientError::MissingRequestPayload,
            ) && *final(self) == *old(self),
            request.payload is Some && !(old(self).state is Ready) ==> r == Err::<
                u64,
                RpcClientError,
            >(RpcClientError::ChannelRecvError) && *final(self) == *old(self),
            r == Err::<u64, RpcClientError>(RpcClientError::DuplicateRequestId) ==> *final(self)
                == *old(self),
            request.payload is Some && old(self).state is Ready ==> (r matches Ok(w) && exists|
                id: u64,
            |
                call_registered(*old(self), *final(self), op, request, id, now, w)) || r == Err::<
                u64,
                RpcClientError,
            >(RpcClientError::DuplicateRequestId),
            request.payload is Some && old(self).state is Ready && (!old(self).handle_message_id
                || old(self).spec_pendings().len() == 0) ==> r is Ok,
    {
        let id: u64 = rand::random();
        let r = self.call_with_id(op, request, id, now);
        proof {
            if r is Ok {
                let w = r->Ok_0;
                assert(call_registered(*old(self), *self, op, request, id, now, w));
            }
        }
        r
    }

    /// Routes one inbound message, as the receive task observes it: a
    /// notification is handed onward for dispatch; a call reply completes the
    /// first pending its correlation data matches; a reply matching no
    /// pending — for instance one whose pending was already reaped — leaves
    /// the session unchanged and is dropped with a diagnostic.
    pub fn handle_response(&mut self, response: RpcResponse) -> (r: ResponseRouting)
        requires
            old(self).wf(),
        ensures
            final(self).wf(),
            final(self).state == old(self).state,
            same_config(*old(self), *final(self)),
            final(self).next_waiter == old(self).next_waiter,
            final(self).send_queue == old(self).send_queue,
            final(self).receiver_is_running == old(self).receiver_is_running,
            final(self).timeout_is_running == old(self).timeout_is_running,
            response.spec_is_notification() ==> *final(self) == *old(self) && (r matches
                ResponseRouting::Notify(n) && response.payload == Some(
                ResponsePayload::Notify { notification: n },
            )),
            r is Notify ==> response.spec_is_notification(),
            r is Ignored ==> *final(self) == *old(self),
            !response.spec_is_notification() && response.payload is None ==> r is Ignored,
            !response.spec_is_notification() && (response.payload matches Some(p) && p is Call)
                ==> (r is Completed || r is Unmatched),
            r is Unmatched ==> *final(self) == *old(self) && forall|i: int|
                0 <= i < old(self).spec_pendings().len() ==> !response_matches(
                    old(self).resolver,
                    old(self).spec_pendings()[i],
                    response.op,
                    response.id,
                    spec_response_key(response),
                ),
            r matches ResponseRouting::Completed(p) ==> {
                &&& p.op == response.op
                &&& response_matches(
                    old(self).resolver,
                    p,
                    response.op,
                    response.id,
                    spec_response_key(response),
                )
                &&& final(self).in_flight == old(self).in_flight - 1
                &&& exists|i: int|
                    #![trigger old(self).spec_pendings()[i]]
                    {
                        &&& 0 <= i < old(self).spec_pendings().len()
                        &&& old(self).spec_pendings()[i] == p
                        &&& final(self).spec_pendings() == old(self).spec_pendings().remove(i)
                        &&& forall|j: int|
                            0 <= j < i ==> !response_matches(
                                old(self).resolver,
                                old(self).spec_pendings()[j],
                                response.op,
                                response.id,
                                spec_response_key(response),
                            )
                    }
            },
    {
        if response.is_notification() {
            match response.payload {
                Some(ResponsePayload::Notify { notification }) => {
                    return ResponseRouting::Notify(notification);
                },
                _ => {
                    return ResponseRouting::Ignored;
                },
            }
        }
        let key = match &response.payload {
            Some(ResponsePayload::Call { key }) => *key,
            _ => {
                return ResponseRouting::Ignored;
            },
        };
        match self.resolver.handle_response(response.op, response.id, key) {
            Some(p) => {
                self.in_flight = self.resolver.pendings_len();
                proof {
                    let pend0 = old(self).resolver.spec_pendings();
                    let i = choose|i: int|
                        #![trigger pend0[i]]
                        {
                            &&& 0 <= i < pend0.len()
                            &&& pend0[i] == p
                            &&& self.resolver.spec_pendings() == pend0.remove(i)
                            &&& forall|j: int|
                                0 <= j < i ==> !response_matches(
                                    old(self).resolver,
                                    pend0[j],
                                    response.op,
                                    response.id,
                                    key,
                                )
                        };
                    assert(old(self).spec_pendings()[i] == p);
                    assert(key == spec_response_key(response));
                }
                ResponseRouting::Completed(p)
            },
            None => ResponseRouting::Unmatched,
        }
    }

    /// One tick of the reaper: removes every pending whose deadline is at or
    /// before `now`. The harness completes each returned pending with a
    /// Timeout error.
    pub fn remove_expired_requests(&mut self, now: u64) -> (expired: Vec<Pending>)
        requires
            old(self).wf(),
        ensures
            final(self).wf(),
            final(self).state == old(self).state,
            same_config(*old(self), *final(self)),
            final(self).next_waiter == old(self).next_waiter,
            final(self).send_queue == old(self).send_queue,
            final(self).receiver_is_running == old(self).receiver_is_running,
            final(self).timeout_is_running == old(self).timeout_is_running,
            final(self).spec_pendings() == old(self).spec_pendings().filter(
                |p: Pending| p.deadline > now,
            ),
            expired@ == old(self).spec_pendings().filter(|p: Pending| p.deadline <= now),
    {
        let expired = self.resolver.remove_expired_requests(now);
        self.in_flight = self.resolver.pendings_len();
        expired
    }

    /// The receive task observed end of stream or a fatal error: it exits and
    /// the session drains. This session does not reconnect.
    pub fn on_stream_closed(&mut self)
        requires
            old(self).wf(),
        ensures
            final(self).wf(),
            !final(self).receiver_is_running,
            !(old(self).state is Closed) ==> final(self).state is Draining,
            old(self).state is Closed ==> final(self).state is Closed,
            same_config(*old(self), *final(self)),
            final(self).spec_pendings() == old(self).spec_pendings(),
            final(self).in_flight == old(self).in_flight,
            final(self).next_waiter == old(self).next_waiter,
            final(self).send_queue == old(self).send_queue,
            final(self).timeout_is_running == old(self).timeout_is_running,
    {
        self.receiver_is_running = false;
        match self.state {
            SessionState::Closed => {},
            _ => {
                self.state = SessionState::Draining;
            },
        }
    }

    /// Signals the timeout reaper to finish; after the handshake the task is
    /// no longer running.
    pub fn stop_timeout_monitor(&mut self)
        ensures
            *final(self) == (Inner { timeout_is_running: false, ..*old(self) }),
    {
        self.timeout_is_running = false;
    }

    /// Signals the receive task to finish; after the handshake the task is no
    /// longer running.
    pub fn stop_response_receiver_task(&mut self)
        ensures
            *final(self) == (Inner { receiver_is_running: false, ..*old(self) }),
    {
        self.receiver_is_running = false;
    }

    /// Shuts the session down: stops both background tasks, cancels every
    /// outstanding pending, and closes the session. Idempotent: a second
    /// shutdown observes a closed session and does nothing. The harness
    /// completes each returned pending with a Cancelled error.
    pub fn shutdown(&mut self) -> (cancelled: Vec<Pending>)
        requires
            old(self).wf(),
        ensures
            final(self).wf(),
            shutdown_rel(*old(self), *final(self), cancelled@),
    {
        match self.state {
            SessionState::Closed => {
                let none: Vec<Pending> = Vec::new();
                proof {
                    assert(none@ =~= old(self).spec_pendings());
                }
                return none;
            },
            _ => {},
        }
        self.stop_timeout_monitor();
        self.stop_response_receiver_task();
        let cancelled = self.resolver.cancel_all();
        self.in_flight = 0;
        self.state = SessionState::Closed;
        cancelled
    }
}

/// Pendings are bounded by the calls in flight: at any well-formed state the
/// resolver holds no more pendings than there are registered, not yet
/// completed call invocations.
pub proof fn lemma_pendings_bounded_by_in_flight(s: Inner)
    requires
        s.wf(),
    ensures
        s.spec_pendings().len() <= s.in_flight,
{
}

/// After shutdown no pending remains and no background task is running.
pub proof fn lemma_shutdown_quiescent(pre: Inner, post: Inner, cancelled: Seq<Pending>)
    requires
        shutdown_rel(pre, post, cancelled),
    ensures
        post.spec_pendings().len() == 0,
        !post.receiver_is_running,
        !post.timeout_is_running,
        post.state is Closed,
{
}

/// A second shutdown is a no-op: it observes the closed session, changes
/// nothing, and cancels nothing.
pub proof fn lemma_double_shutdown_no_op(
    s0: Inner,
    s1: Inner,
    s2: Inner,
    c1: Seq<Pending>,
    c2: Seq<Pending>,
)
    requires
        s0.wf(),
        shutdown_rel(s0, s1, c1),
        shutdown_rel(s1, s2, c2),
    ensures
        s2 == s1,
        c2.len() == 0,
{
}

} // verus!
