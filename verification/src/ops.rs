//! Operation tags carried by wire requests and responses, and the event types
//! of server-initiated notifications.

use vstd::prelude::*;

verus! {

/// The operation tag of a wire request or response. Every message on the
/// duplex stream carries exactly one of these discriminants.
#[derive(Clone, Copy, Debug, PartialEq, Eq, Structural)]
pub enum RpcApiOps {
    Ping,
    GetInfo,
    GetBlock,
    GetBlockTemplate,
    SubmitBlock,
    SubmitTransaction,
    GetBlockCount,
    GetSelectedTipHash,
    Shutdown,
    NotifyBlockAdded,
    NotifyVirtualSelectedParentChainChanged,
    NotifyFinalityConflict,
    NotifyFinalityConflictResolved,
    NotifyUtxosChanged,
    NotifyVirtualSelectedParentBlueScoreChanged,
    NotifyVirtualDaaScoreChanged,
    NotifyPruningPointUtxoSetOverride,
    NotifyNewBlockTemplate,
}

/// The discriminant over notifiable server events.
#[derive(Clone, Copy, Debug, PartialEq, Eq, Structural)]
pub enum EventType {
    BlockAdded,
    VirtualSelectedParentChainChanged,
    FinalityConflict,
    FinalityConflictResolved,
    UtxosChanged,
    VirtualSelectedParentBlueScoreChanged,
    VirtualDaaScoreChanged,
    PruningPointUtxoSetOverride,
    NewBlockTemplate,
}

/// Whether a wire subscribe message starts or stops the server-side
/// subscription for its event type.
#[derive(Clone, Copy, Debug, PartialEq, Eq, Structural)]
pub enum SubscribeCommand {
    Start,
    Stop,
}

/// The operation tag of the wire subscribe message for an event type.
pub open spec fn spec_subscribe_op(event: EventType) -> RpcApiOps {
    match event {
        EventType::BlockAdded => RpcApiOps::NotifyBlockAdded,
        EventType::VirtualSelectedParentChainChanged => {
            RpcApiOps::NotifyVirtualSelectedParentChainChanged
        },
        EventType::FinalityConflict => RpcApiOps::NotifyFinalityConflict,
        EventType::FinalityConflictResolved => RpcApiOps::NotifyFinalityConflictResolved,
        EventType::UtxosChanged => RpcApiOps::NotifyUtxosChanged,
        EventType::VirtualSelectedParentBlueScoreChanged => {
            RpcApiOps::NotifyVirtualSelectedParentBlueScoreChanged
        },
        EventType::VirtualDaaScoreChanged => RpcApiOps::NotifyVirtualDaaScoreChanged,
        EventType::PruningPointUtxoSetOverride => RpcApiOps::NotifyPruningPointUtxoSetOverride,
        EventType::NewBlockTemplate => RpcApiOps::NotifyNewBlockTemplate,
    }
}

/// Maps an event type to the operation tag of its wire subscribe message.
pub fn subscribe_op(event: EventType) -> (r: RpcApiOps)
    ensures
        r == spec_subscribe_op(event),
{
    match event {
        EventType::BlockAdded => RpcApiOps::NotifyBlockAdded,
        EventType::VirtualSelectedParentChainChanged => {
            RpcApiOps::NotifyVirtualSelectedParentChainChanged
        },
        EventType::FinalityConflict => RpcApiOps::NotifyFinalityConflict,
        EventType::FinalityConflictResolved => RpcApiOps::NotifyFinalityConflictResolved,
        EventType::UtxosChanged => RpcApiOps::NotifyUtxosChanged,
        EventType::VirtualSelectedParentBlueScoreChanged => {
            RpcApiOps::NotifyVirtualSelectedParentBlueScoreChanged
        },
        EventType::VirtualDaaScoreChanged => RpcApiOps::NotifyVirtualDaaScoreChanged,
        EventType::PruningPointUtxoSetOverride => RpcApiOps::NotifyPruningPointUtxoSetOverride,
        EventType::NewBlockTemplate => RpcApiOps::NotifyNewBlockTemplate,
    }
}

} // verus!
