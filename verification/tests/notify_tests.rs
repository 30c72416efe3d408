use std::sync::Arc;

use kaspa_grpc_client::client::GrpcClient;
use kaspa_grpc_client::errors::RpcClientError;
use kaspa_grpc_client::message::{ResponsePayload, RpcResponse};
use kaspa_grpc_client::notification::{
    Block, BlockAddedNotification, DomainHash, Notification,
    VirtualSelectedParentChainChangedNotification, VirtualDaaScoreChangedNotification,
};
use kaspa_grpc_client::notifier::NotificationChannel;
use kaspa_grpc_client::ops::{EventType, RpcApiOps, SubscribeCommand};
use kaspa_grpc_client::session::ResponseRouting;
use kaspa_grpc_client::subscription::NotificationType;

fn hash(value: u64) -> DomainHash {
    DomainHash { value }
}

fn chain_changed(added: Vec<u64>, removed: Vec<u64>, accepted: Vec<u64>) -> Notification {
    Notification::VirtualSelectedParentChainChanged(VirtualSelectedParentChainChangedNotification {
        added_chain_block_hashes: Arc::new(added.into_iter().map(hash).collect()),
        removed_chain_block_hashes: Arc::new(removed.into_iter().map(hash).collect()),
        accepted_transaction_ids: Arc::new(accepted.into_iter().map(hash).collect()),
    })
}

fn chain_notification_response(n: Notification) -> RpcResponse {
    RpcResponse {
        op: RpcApiOps::NotifyVirtualSelectedParentChainChanged,
        id: None,
        payload: Some(ResponsePayload::Notify { notification: n }),
    }
}

#[test]
fn handshake_capabilities_accept_stop_notify() {
    let mut c = GrpcClient::new(true, true);
    assert!(c.handle_message_id());
    assert!(c.handle_stop_notify());
    let id = c.register_new_listener(None);
    let _ = c.start_notify(id, NotificationType::BlockAdded).unwrap();
    // The server advertised wire unsubscribe commands: stop_notify is accepted.
    assert!(c.stop_notify(id, NotificationType::BlockAdded).is_ok());
}

#[test]
fn stop_notify_unsupported_without_capability() {
    let mut c = GrpcClient::new(false, true);
    let id = c.register_new_listener(None);
    let _ = c.start_notify(id, NotificationType::BlockAdded).unwrap();
    let r = c.stop_notify(id, NotificationType::BlockAdded);
    assert_eq!(r, Err(RpcClientError::UnsupportedFeature));
}

#[test]
fn fan_out_filters_accepted_transaction_ids_per_listener() {
    let mut c = GrpcClient::new(true, true);
    let l1 = c.register_new_listener(None);
    let l2 = c.register_new_listener(None);

    // L1 declines accepted transaction ids; its activation raises the global
    // count from zero and issues exactly one wire subscribe.
    let cmd1 = c.start_notify(l1, NotificationType::VirtualSelectedParentChainChanged(false));
    let cmd1 = cmd1.unwrap();
    assert!(cmd1.is_some());
    let cmd2 = c.start_notify(l2, NotificationType::VirtualSelectedParentChainChanged(true));
    let cmd2 = cmd2.unwrap();
    assert!(cmd2.is_none());
    assert_eq!(c.notifier.active_count(EventType::VirtualSelectedParentChainChanged), 2);

    let n = chain_changed(vec![1, 2], vec![3], vec![10, 20]);
    let routed = c.handle_response(chain_notification_response(n));
    assert!(matches!(routed, ResponseRouting::Notify(_)));

    let q1 = &c.notifier.listeners[0].channel.queue;
    assert_eq!(q1.len(), 1);
    match &q1[0] {
        Notification::VirtualSelectedParentChainChanged(p) => {
            assert_eq!(p.added_chain_block_hashes.as_ref(), &vec![hash(1), hash(2)]);
            assert_eq!(p.removed_chain_block_hashes.as_ref(), &vec![hash(3)]);
            assert!(p.accepted_transaction_ids.is_empty());
        }
        other => panic!("unexpected notification {:?}", other),
    }

    let q2 = &c.notifier.listeners[1].channel.queue;
    assert_eq!(q2.len(), 1);
    match &q2[0] {
        Notification::VirtualSelectedParentChainChanged(p) => {
            assert_eq!(p.added_chain_block_hashes.as_ref(), &vec![hash(1), hash(2)]);
            assert_eq!(p.removed_chain_block_hashes.as_ref(), &vec![hash(3)]);
            assert_eq!(p.accepted_transaction_ids.as_ref(), &vec![hash(10), hash(20)]);
        }
        other => panic!("unexpected notification {:?}", other),
    }
}

#[test]
fn subscribe_ref_counting_issues_wire_commands_at_edges() {
    let mut c = GrpcClient::new(true, true);
    let l1 = c.register_new_listener(None);
    let l2 = c.register_new_listener(None);

    // First activation: 0 -> 1 issues Subscribe.
    let r = c.start_notify(l1, NotificationType::BlockAdded).unwrap();
    let req = r.expect("first activation issues a wire subscribe");
    assert_eq!(req.op, RpcApiOps::NotifyBlockAdded);
    assert_eq!(req.payload.unwrap().command, Some(SubscribeCommand::Start));

    // Second activation: 1 -> 2 is local only.
    assert!(c.start_notify(l2, NotificationType::BlockAdded).unwrap().is_none());

    // First deactivation: 2 -> 1 is local only.
    assert!(c.stop_notify(l1, NotificationType::BlockAdded).unwrap().is_none());

    // Last deactivation: 1 -> 0 issues Unsubscribe.
    let r = c.stop_notify(l2, NotificationType::BlockAdded).unwrap();
    let req = r.expect("last deactivation issues a wire unsubscribe");
    assert_eq!(req.op, RpcApiOps::NotifyBlockAdded);
    assert_eq!(req.payload.unwrap().command, Some(SubscribeCommand::Stop));
}

#[test]
fn notification_with_no_active_listener_is_dropped() {
    let mut c = GrpcClient::new(true, true);
    let _unsubscribed = c.register_new_listener(None);
    let n = chain_changed(vec![1], vec![], vec![]);
    let _ = c.handle_response(chain_notification_response(n));
    assert!(c.notifier.listeners[0].channel.queue.is_empty());
}

#[test]
fn full_channel_drops_for_that_listener_only() {
    let mut c = GrpcClient::new(true, true);
    let slow = c.register_new_listener(Some(NotificationChannel::new(0)));
    let fast = c.register_new_listener(None);
    let _ = c.start_notify(slow, NotificationType::VirtualSelectedParentChainChanged(true));
    let _ = c.start_notify(fast, NotificationType::VirtualSelectedParentChainChanged(true));

    let n = chain_changed(vec![1], vec![], vec![]);
    let _ = c.handle_response(chain_notification_response(n));

    assert!(c.notifier.listeners[0].channel.queue.is_empty());
    assert_eq!(c.notifier.listeners[1].channel.queue.len(), 1);
}

#[test]
fn register_then_unregister_restores_counts() {
    let mut c = GrpcClient::new(true, true);
    let keeper = c.register_new_listener(None);
    let _ = c.start_notify(keeper, NotificationType::VirtualDaaScoreChanged).unwrap();

    let guest = c.register_new_listener(None);
    assert_eq!(c.notifier.listeners.len(), 2);
    let _ = c.start_notify(guest, NotificationType::BlockAdded).unwrap();
    let _ = c.start_notify(guest, NotificationType::VirtualDaaScoreChanged).unwrap();
    assert_eq!(c.notifier.active_count(EventType::VirtualDaaScoreChanged), 2);
    assert_eq!(c.notifier.active_count(EventType::BlockAdded), 1);

    // Unregistering tears down the guest's subscriptions: BlockAdded drops to
    // zero and gets a wire unsubscribe; the DAA score count stays positive.
    let unsubs = c.unregister_listener(guest).unwrap();
    assert_eq!(c.notifier.listeners.len(), 1);
    assert_eq!(unsubs.len(), 1);
    assert_eq!(unsubs[0].op, RpcApiOps::NotifyBlockAdded);
    assert_eq!(unsubs[0].payload.unwrap().command, Some(SubscribeCommand::Stop));
    assert_eq!(c.notifier.active_count(EventType::VirtualDaaScoreChanged), 1);
    assert_eq!(c.notifier.active_count(EventType::BlockAdded), 0);
}

#[test]
fn fan_out_shares_payloads_instead_of_copying() {
    let mut c = GrpcClient::new(true, true);
    let trimming = c.register_new_listener(None);
    let full = c.register_new_listener(None);
    let _ = c.start_notify(trimming, NotificationType::VirtualSelectedParentChainChanged(false));
    let _ = c.start_notify(full, NotificationType::VirtualSelectedParentChainChanged(true));

    let added = Arc::new(vec![hash(1), hash(2)]);
    let removed = Arc::new(vec![hash(3)]);
    let accepted = Arc::new(vec![hash(10)]);
    let n = Notification::VirtualSelectedParentChainChanged(
        VirtualSelectedParentChainChangedNotification {
            added_chain_block_hashes: added.clone(),
            removed_chain_block_hashes: removed.clone(),
            accepted_transaction_ids: accepted.clone(),
        },
    );
    let _ = c.handle_response(chain_notification_response(n));

    // The trimming listener gets a reduced copy whose untouched fields are
    // still shared with the inbound payload; only the accepted ids are new.
    match &c.notifier.listeners[0].channel.queue[0] {
        Notification::VirtualSelectedParentChainChanged(p) => {
            assert!(Arc::ptr_eq(&p.added_chain_block_hashes, &added));
            assert!(Arc::ptr_eq(&p.removed_chain_block_hashes, &removed));
            assert!(!Arc::ptr_eq(&p.accepted_transaction_ids, &accepted));
            assert!(p.accepted_transaction_ids.is_empty());
        }
        other => panic!("unexpected notification {:?}", other),
    }
    // The pass-through listener shares everything.
    match &c.notifier.listeners[1].channel.queue[0] {
        Notification::VirtualSelectedParentChainChanged(p) => {
            assert!(Arc::ptr_eq(&p.added_chain_block_hashes, &added));
            assert!(Arc::ptr_eq(&p.removed_chain_block_hashes, &removed));
            assert!(Arc::ptr_eq(&p.accepted_transaction_ids, &accepted));
        }
        other => panic!("unexpected notification {:?}", other),
    }
}

#[test]
fn block_added_fan_out_delivers_to_active_listener() {
    let mut c = GrpcClient::new(true, true);
    let id = c.register_new_listener(None);
    let _ = c.start_notify(id, NotificationType::BlockAdded).unwrap();

    let block = Arc::new(Block { hash: hash(77) });
    let n = Notification::BlockAdded(BlockAddedNotification { block: block.clone() });
    let response = RpcResponse {
        op: RpcApiOps::NotifyBlockAdded,
        id: None,
        payload: Some(ResponsePayload::Notify { notification: n }),
    };
    let _ = c.handle_response(response);

    match &c.notifier.listeners[0].channel.queue[0] {
        Notification::BlockAdded(p) => {
            assert!(Arc::ptr_eq(&p.block, &block));
            assert_eq!(p.block.hash, hash(77));
        }
        other => panic!("unexpected notification {:?}", other),
    }
}

#[test]
fn unregister_unknown_listener_is_reported() {
    let mut c = GrpcClient::new(true, true);
    let r = c.unregister_listener(99);
    assert_eq!(r, Err(RpcClientError::ListenerNotFound));
}

#[test]
fn overall_subscription_passes_or_drops() {
    let n = Notification::VirtualDaaScoreChanged(VirtualDaaScoreChangedNotification {
        virtual_daa_score: 7,
    });
    assert_eq!(n.event_type(), EventType::VirtualDaaScoreChanged);

    let active = kaspa_grpc_client::subscription::OverallSubscription { active: true };
    let inactive = kaspa_grpc_client::subscription::OverallSubscription { active: false };
    assert!(n.apply_overall_subscription(&active).is_some());
    assert!(n.apply_overall_subscription(&inactive).is_none());
}

#[test]
fn chain_subscription_keeps_payload_when_ids_wanted() {
    let n = chain_changed(vec![1], vec![2], vec![3]);
    let sub = kaspa_grpc_client::subscription::VirtualSelectedParentChainChangedSubscription {
        active: true,
        include_accepted_transaction_ids: true,
    };
    match n.apply_virtual_selected_parent_chain_changed_subscription(&sub) {
        Some(Notification::VirtualSelectedParentChainChanged(p)) => {
            assert_eq!(p.accepted_transaction_ids.as_ref(), &vec![hash(3)]);
        }
        other => panic!("unexpected result {:?}", other),
    }
}
