use kaspa_grpc_client::errors::RpcClientError;
use kaspa_grpc_client::message::{ResponsePayload, RpcRequest, RpcResponse};
use kaspa_grpc_client::ops::RpcApiOps;
use kaspa_grpc_client::resolver::DynResolver;
use kaspa_grpc_client::session::{Inner, ResponseRouting, SessionState};

fn get_block_request(key: u64) -> RpcRequest {
    kaspa_grpc_client::message::get_block_request(
        kaspa_grpc_client::notification::DomainHash { value: key },
    )
}

fn ping_request() -> RpcRequest {
    kaspa_grpc_client::message::ping_request()
}

fn call_reply(op: RpcApiOps, id: Option<u64>, key: Option<u64>) -> RpcResponse {
    RpcResponse { op, id, payload: Some(ResponsePayload::Call { key }) }
}

#[test]
fn handshake_chooses_id_based_resolver() {
    let s = Inner::new(true, true);
    assert!(s.handle_message_id());
    assert!(s.handle_stop_notify());
    assert!(matches!(s.resolver, DynResolver::Ids(_)));
    assert!(matches!(s.state, SessionState::Ready));

    let s2 = Inner::new(true, false);
    assert!(matches!(s2.resolver, DynResolver::Queues(_)));
}

#[test]
fn call_then_timeout_empties_pendings() {
    let mut s = Inner::new(true, true);
    let w = s.call_with_id(RpcApiOps::GetBlock, get_block_request(0xAA), 7, 0).unwrap();
    assert_eq!(s.resolver.pendings_len(), 1);

    // The reaper runs before the deadline: nothing expires.
    let early = s.remove_expired_requests(4_999);
    assert!(early.is_empty());
    assert_eq!(s.resolver.pendings_len(), 1);

    // At the five-second deadline the pending expires with a Timeout error.
    let expired = s.remove_expired_requests(5_000);
    assert_eq!(expired.len(), 1);
    assert_eq!(expired[0].waiter, w);
    assert_eq!(expired[0].op, RpcApiOps::GetBlock);
    assert_eq!(s.resolver.pendings_len(), 0);
}

#[test]
fn response_after_reap_is_dropped_silently() {
    let mut s = Inner::new(true, true);
    let _ = s.call_with_id(RpcApiOps::GetBlock, get_block_request(0xAA), 7, 0).unwrap();
    let _ = s.remove_expired_requests(5_000);

    let routed = s.handle_response(call_reply(RpcApiOps::GetBlock, Some(7), Some(0xAA)));
    assert!(matches!(routed, ResponseRouting::Unmatched));
    assert_eq!(s.resolver.pendings_len(), 0);
}

#[test]
fn completed_call_matches_operation_tag() {
    let mut s = Inner::new(true, true);
    let w1 = s.call_with_id(RpcApiOps::Ping, ping_request(), 1, 0).unwrap();
    let w2 = s.call_with_id(RpcApiOps::GetBlock, get_block_request(0xAA), 2, 0).unwrap();

    // Out-of-order responses are fine in id-based mode.
    let routed = s.handle_response(call_reply(RpcApiOps::GetBlock, Some(2), Some(0xAA)));
    match routed {
        ResponseRouting::Completed(p) => {
            assert_eq!(p.op, RpcApiOps::GetBlock);
            assert_eq!(p.waiter, w2);
        }
        other => panic!("expected a completion, got {:?}", other),
    }
    let routed = s.handle_response(call_reply(RpcApiOps::Ping, Some(1), None));
    match routed {
        ResponseRouting::Completed(p) => assert_eq!(p.waiter, w1),
        other => panic!("expected a completion, got {:?}", other),
    }
    assert_eq!(s.resolver.pendings_len(), 0);
}

#[test]
fn queue_mode_matches_by_operation_key_and_order() {
    let mut s = Inner::new(false, false);
    let w1 = s.call(RpcApiOps::GetBlock, get_block_request(0xAA), 0).unwrap();
    let w2 = s.call(RpcApiOps::GetBlock, get_block_request(0xBB), 0).unwrap();
    let w3 = s.call(RpcApiOps::GetBlock, get_block_request(0xAA), 0).unwrap();

    // A response for the second key completes the right pending even though
    // another operation of the same tag is ahead of it.
    match s.handle_response(call_reply(RpcApiOps::GetBlock, None, Some(0xBB))) {
        ResponseRouting::Completed(p) => assert_eq!(p.waiter, w2),
        other => panic!("expected a completion, got {:?}", other),
    }
    // Responses for the same (operation, key) complete in enqueue order.
    match s.handle_response(call_reply(RpcApiOps::GetBlock, None, Some(0xAA))) {
        ResponseRouting::Completed(p) => assert_eq!(p.waiter, w1),
        other => panic!("expected a completion, got {:?}", other),
    }
    match s.handle_response(call_reply(RpcApiOps::GetBlock, None, Some(0xAA))) {
        ResponseRouting::Completed(p) => assert_eq!(p.waiter, w3),
        other => panic!("expected a completion, got {:?}", other),
    }
    // A response matching no queue head is dropped, never cross-matched.
    match s.handle_response(call_reply(RpcApiOps::GetBlock, None, Some(0xCC))) {
        ResponseRouting::Unmatched => {}
        other => panic!("expected a drop, got {:?}", other),
    }
}

#[test]
fn id_collision_is_detected_and_dropped() {
    let mut s = Inner::new(true, true);
    let _ = s.call_with_id(RpcApiOps::Ping, ping_request(), 42, 0).unwrap();
    let second = s.call_with_id(RpcApiOps::GetBlock, get_block_request(1), 42, 0);
    assert_eq!(second, Err(RpcClientError::DuplicateRequestId));
    assert_eq!(s.resolver.pendings_len(), 1);
}

#[test]
fn missing_payload_is_callers_error() {
    let mut s = Inner::new(true, true);
    let r = s.call(RpcApiOps::Ping, RpcRequest { op: RpcApiOps::Ping, id: None, payload: None }, 0);
    assert_eq!(r, Err(RpcClientError::MissingRequestPayload));
    assert_eq!(s.resolver.pendings_len(), 0);
}

#[test]
fn shutdown_cancels_pending_calls_and_closes() {
    let mut s = Inner::new(true, true);
    let w1 = s.call(RpcApiOps::Ping, ping_request(), 0).unwrap();
    let w2 = s.call(RpcApiOps::GetBlock, get_block_request(1), 0).unwrap();
    let w3 = s.call(RpcApiOps::GetBlock, get_block_request(2), 0).unwrap();

    let cancelled = s.shutdown();
    let waiters: Vec<u64> = cancelled.iter().map(|p| p.waiter).collect();
    assert_eq!(waiters, vec![w1, w2, w3]);
    assert_eq!(s.resolver.pendings_len(), 0);
    assert!(!s.receiver_is_running);
    assert!(!s.timeout_is_running);
    assert!(matches!(s.state, SessionState::Closed));

    // Subsequent calls are refused: the send channel is closed.
    let r = s.call(RpcApiOps::Ping, ping_request(), 0);
    assert_eq!(r, Err(RpcClientError::ChannelRecvError));
}

#[test]
fn double_shutdown_is_a_no_op() {
    let mut s = Inner::new(true, true);
    let _ = s.call(RpcApiOps::Ping, ping_request(), 0).unwrap();
    let first = s.shutdown();
    assert_eq!(first.len(), 1);
    let second = s.shutdown();
    assert!(second.is_empty());
    assert!(matches!(s.state, SessionState::Closed));
}

#[test]
fn server_closed_stream_drains_session() {
    let mut s = Inner::new(true, true);
    let _ = s.call(RpcApiOps::Ping, ping_request(), 0).unwrap();

    s.on_stream_closed();
    assert!(!s.receiver_is_running);
    assert!(matches!(s.state, SessionState::Draining));

    // New calls are refused while draining.
    let r = s.call(RpcApiOps::Ping, ping_request(), 0);
    assert_eq!(r, Err(RpcClientError::ChannelRecvError));

    // Shutdown completes cleanly and cancels the outstanding pending.
    let cancelled = s.shutdown();
    assert_eq!(cancelled.len(), 1);
    assert!(matches!(s.state, SessionState::Closed));
}

#[test]
fn send_queue_keeps_enqueue_order_and_stamps_ids() {
    let mut s = Inner::new(true, true);
    let _ = s.call_with_id(RpcApiOps::Ping, ping_request(), 5, 0).unwrap();
    let _ = s.call_with_id(RpcApiOps::GetBlock, get_block_request(9), 6, 0).unwrap();
    assert_eq!(s.send_queue.len(), 2);
    assert_eq!(s.send_queue[0].op, RpcApiOps::Ping);
    assert_eq!(s.send_queue[0].id, Some(5));
    assert_eq!(s.send_queue[1].op, RpcApiOps::GetBlock);
    assert_eq!(s.send_queue[1].id, Some(6));

    // Without negotiated ids the wire requests carry none.
    let mut q = Inner::new(false, false);
    let _ = q.call(RpcApiOps::Ping, ping_request(), 0).unwrap();
    assert_eq!(q.send_queue[0].id, None);
}
