use kaspa_grpc_client::difficulty::{DifficultyError, DifficultyResult};
use kaspa_grpc_client::message::{build_subscribe_request, RpcRequest, RpcResponse};
use kaspa_grpc_client::message::ResponsePayload;
use kaspa_grpc_client::notification::{Notification, NewBlockTemplateNotification};
use kaspa_grpc_client::ops::{EventType, RpcApiOps, SubscribeCommand};
use kaspa_grpc_client::session::{
    CONNECT_TIMEOUT_DURATION, KEEP_ALIVE_DURATION, REQUEST_TIMEOUT_DURATION,
    TIMEOUT_MONITORING_INTERVAL,
};

#[test]
fn subscribe_requests_carry_event_op_and_command() {
    let req = build_subscribe_request(EventType::UtxosChanged, SubscribeCommand::Start);
    assert_eq!(req.op, RpcApiOps::NotifyUtxosChanged);
    assert_eq!(req.id, None);
    let payload = req.payload.unwrap();
    assert_eq!(payload.key, None);
    assert_eq!(payload.command, Some(SubscribeCommand::Start));

    let req = build_subscribe_request(EventType::NewBlockTemplate, SubscribeCommand::Stop);
    assert_eq!(req.op, RpcApiOps::NotifyNewBlockTemplate);
    assert_eq!(req.payload.unwrap().command, Some(SubscribeCommand::Stop));
}

#[test]
fn notification_classification() {
    let as_notification = RpcResponse {
        op: RpcApiOps::NotifyNewBlockTemplate,
        id: None,
        payload: Some(ResponsePayload::Notify {
            notification: Notification::NewBlockTemplate(NewBlockTemplateNotification {}),
        }),
    };
    assert!(as_notification.is_notification());

    let as_reply = RpcResponse {
        op: RpcApiOps::Ping,
        id: Some(1),
        payload: Some(ResponsePayload::Call { key: None }),
    };
    assert!(!as_reply.is_notification());

    let empty = RpcResponse { op: RpcApiOps::Ping, id: Some(1), payload: None };
    assert!(!empty.is_notification());
}

#[test]
fn transport_tunable_defaults() {
    assert_eq!(CONNECT_TIMEOUT_DURATION, 20_000);
    assert_eq!(KEEP_ALIVE_DURATION, 5_000);
    assert_eq!(REQUEST_TIMEOUT_DURATION, 5_000);
    assert_eq!(TIMEOUT_MONITORING_INTERVAL, 1_000);
}

#[test]
fn difficulty_errors_hold_their_data() {
    let e = DifficultyError::UnderMinWindowSizeAllowed(3, 10);
    assert_eq!(e, DifficultyError::UnderMinWindowSizeAllowed(3, 10));
    assert_ne!(e, DifficultyError::EmptyTimestampRange);

    let r: DifficultyResult<u32> = Err(DifficultyError::EmptyTimestampRange);
    assert!(r.is_err());
}

#[test]
fn requests_round_trip_their_fields() {
    let req = RpcRequest { op: RpcApiOps::SubmitBlock, id: Some(12), payload: None };
    assert_eq!(req, RpcRequest { op: RpcApiOps::SubmitBlock, id: Some(12), payload: None });
}
