//! Server-initiated notifications and the per-listener filters applied to
//! them during fan-out.
//!
//! Payloads can be large (hash lists, transaction id lists, UTXO diffs), so
//! they are shared by reference across listener deliveries and copied only
//! when filtering actually replaces a field.

use vstd::prelude::*;
use std::sync::Arc;
use crate::ops::EventType;
use crate::subscription::{
    OverallSubscription, UtxosChangedSubscription, VirtualSelectedParentChainChangedSubscription,
};

verus! {

/// Relies on `alloc::sync::Arc::clone`: the clone is a second handle to the
/// same allocation, so it equals the original value.
#[verifier::external_body]
fn share_arc<T>(v: &Arc<T>) -> (res: Arc<T>)
    ensures
        res == *v,
{
    v.clone()
}

/// A consensus hash, reduced to the plain value the client core carries
/// through; the domain model of hashing is out of scope.
#[derive(Clone, Copy, Debug, PartialEq, Eq, Structural)]
pub struct DomainHash {
    pub value: u64,
}

pub type TransactionId = DomainHash;

/// A block, reduced to what the client core reads of it: nothing but its
/// identity.
#[derive(Clone, Copy, Debug, PartialEq, Eq, Structural)]
pub struct Block {
    pub hash: DomainHash,
}

/// An accumulated UTXO diff between two virtual states, reduced to plain
/// outpoint stand-ins.
#[derive(Clone, Debug, PartialEq, Eq)]
pub struct UtxoDiff {
    pub added: Vec<u64>,
    pub removed: Vec<u64>,
}

#[derive(Clone, Debug)]
pub struct BlockAddedNotification {
    pub block: Arc<Block>,
}

#[derive(Clone, Debug)]
pub struct VirtualSelectedParentChainChangedNotification {
    pub added_chain_block_hashes: Arc<Vec<DomainHash>>,
    pub removed_chain_block_hashes: Arc<Vec<DomainHash>>,
    pub accepted_transaction_ids: Arc<Vec<TransactionId>>,
}

#[derive(Clone, Debug)]
pub struct FinalityConflictNotification {
    pub violating_block_hash: Arc<DomainHash>,
}

#[derive(Clone, Debug)]
pub struct FinalityConflictResolvedNotification {
    pub finality_block_hash: Arc<DomainHash>,
}

#[derive(Clone, Debug)]
pub struct UtxosChangedNotification {
    /// Accumulated UTXO diff between the last virtual state and the current
    /// virtual state.
    pub accumulated_utxo_diff: Arc<UtxoDiff>,
}

#[derive(Clone, Copy, Debug)]
pub struct VirtualSelectedParentBlueScoreChangedNotification {
    pub virtual_selected_parent_blue_score: u64,
}

#[derive(Clone, Copy, Debug)]
pub struct VirtualDaaScoreChangedNotification {
    pub virtual_daa_score: u64,
}

#[derive(Clone, Copy, Debug)]
pub struct PruningPointUtxoSetOverrideNotification {}

#[derive(Clone, Copy, Debug)]
pub struct NewBlockTemplateNotification {}

/// A server-initiated notification, tagged by its event type.
#[derive(Clone, Debug)]
pub enum Notification {
    BlockAdded(BlockAddedNotification),
    VirtualSelectedParentChainChanged(VirtualSelectedParentChainChangedNotification),
    FinalityConflict(FinalityConflictNotification),
    FinalityConflictResolved(FinalityConflictResolvedNotification),
    UtxosChanged(UtxosChangedNotification),
    VirtualSelectedParentBlueScoreChanged(VirtualSelectedParentBlueScoreChangedNotification),
    VirtualDaaScoreChanged(VirtualDaaScoreChangedNotification),
    PruningPointUtxoSetOverride(PruningPointUtxoSetOverrideNotification),
    NewBlockTemplate(NewBlockTemplateNotification),
}

impl Notification {
    /// The event type this notification is tagged with.
    pub open spec fn spec_event_type(self) -> EventType {
        match self {
            Notification::BlockAdded(_) => EventType::BlockAdded,
            Notification::VirtualSelectedParentChainChanged(_) => {
                EventType::VirtualSelectedParentChainChanged
            },
            Notification::FinalityConflict(_) => EventType::FinalityConflict,
            Notification::FinalityConflictResolved(_) => EventType::FinalityConflictResolved,
            Notification::UtxosChanged(_) => EventType::UtxosChanged,
            Notification::VirtualSelectedParentBlueScoreChanged(_) => {
                EventType::VirtualSelectedParentBlueScoreChanged
            },
            Notification::VirtualDaaScoreChanged(_) => EventType::VirtualDaaScoreChanged,
            Notification::PruningPointUtxoSetOverride(_) => {
                EventType::PruningPointUtxoSetOverride
            },
            Notification::NewBlockTemplate(_) => EventType::NewBlockTemplate,
        }
    }

    pub fn event_type(&self) -> (r: EventType)
        ensures
            r == self.spec_event_type(),
    {
        match self {
            Notification::BlockAdded(_) => EventType::BlockAdded,
            Notification::VirtualSelectedParentChainChanged(_) => {
                EventType::VirtualSelectedParentChainChanged
            },
            Notification::FinalityConflict(_) => EventType::FinalityConflict,
            Notification::FinalityConflictResolved(_) => EventType::FinalityConflictResolved,
            Notification::UtxosChanged(_) => EventType::UtxosChanged,
            Notification::VirtualSelectedParentBlueScoreChanged(_) => {
                EventType::VirtualSelectedParentBlueScoreChanged
            },
            Notification::VirtualDaaScoreChanged(_) => EventType::VirtualDaaScoreChanged,
            Notification::PruningPointUtxoSetOverride(_) => {
                EventType::PruningPointUtxoSetOverride
            },
            Notification::NewBlockTemplate(_) => EventType::NewBlockTemplate,
        }
    }

    /// Makes a second handle to this notification. Shared payload fields are
    /// not copied: every field is either a plain value or a shared reference.
    pub fn duplicate(&self) -> (r: Notification)
        ensures
            r == *self,
    {
        match self {
            Notification::BlockAdded(p) => Notification::BlockAdded(
                BlockAddedNotification { block: share_arc(&p.block) },
            ),
            Notification::VirtualSelectedParentChainChanged(p) => {
                Notification::VirtualSelectedParentChainChanged(
                    VirtualSelectedParentChainChangedNotification {
                        added_chain_block_hashes: share_arc(&p.added_chain_block_hashes),
                        removed_chain_block_hashes: share_arc(&p.removed_chain_block_hashes),
                        accepted_transaction_ids: share_arc(&p.accepted_transaction_ids),
                    },
                )
            },
            Notification::FinalityConflict(p) => Notification::FinalityConflict(
                FinalityConflictNotification { violating_block_hash: share_arc(&p.violating_block_hash) },
            ),
            Notification::FinalityConflictResolved(p) => Notification::FinalityConflictResolved(
                FinalityConflictResolvedNotification {
                    finality_block_hash: share_arc(&p.finality_block_hash),
                },
            ),
            Notification::UtxosChanged(p) => Notification::UtxosChanged(
                UtxosChangedNotification { accumulated_utxo_diff: share_arc(&p.accumulated_utxo_diff) },
            ),
            Notification::VirtualSelectedParentBlueScoreChanged(p) => {
                Notification::VirtualSelectedParentBlueScoreChanged(*p)
            },
            Notification::VirtualDaaScoreChanged(p) => Notification::VirtualDaaScoreChanged(*p),
            Notification::PruningPointUtxoSetOverride(p) => {
                Notification::PruningPointUtxoSetOverride(*p)
            },
            Notification::NewBlockTemplate(p) => Notification::NewBlockTemplate(*p),
        }
    }

    /// Whether filtering this notification through `s` replaces the accepted
    /// transaction ids by an empty list: the subscription declined them and
    /// the payload carries a non-empty list.
    pub open spec fn spec_chain_changed_trims(
        self,
        s: VirtualSelectedParentChainChangedSubscription,
    ) -> bool {
        &&& self matches Notification::VirtualSelectedParentChainChanged(p)
        &&& !s.include_accepted_transaction_ids
        &&& p.accepted_transaction_ids@.len() > 0
    }

    /// Pass-through if the subscription is active, drop otherwise.
    pub fn apply_overall_subscription(&self, subscription: &OverallSubscription) -> (r: Option<
        Notification,
    >)
        ensures
            subscription.active ==> r == Some(*self),
            !subscription.active ==> r is None,
    {
        if subscription.active {
            Some(self.duplicate())
        } else {
            None
        }
    }

    /// Drop when inactive. When the subscription declines accepted
    /// transaction ids and the payload carries a non-empty list, deliver a
    /// copy with that field replaced by an empty list, sharing the other
    /// fields; otherwise pass through.
    pub fn apply_virtual_selected_parent_chain_changed_subscription(
        &self,
        subscription: &VirtualSelectedParentChainChangedSubscription,
    ) -> (r: Option<Notification>)
        ensures
            !subscription.active ==> r is None,
            subscription.active && !self.spec_chain_changed_trims(*subscription) ==> r == Some(
                *self,
            ),
            subscription.active && self.spec_chain_changed_trims(*subscription) ==> {
                &&& self matches Notification::VirtualSelectedParentChainChanged(p)
                &&& r matches Some(n)
                &&& n matches Notification::VirtualSelectedParentChainChanged(q)
                &&& q.added_chain_block_hashes == p.added_chain_block_hashes
                &&& q.removed_chain_block_hashes == p.removed_chain_block_hashes
                &&& q.accepted_transaction_ids@.len() == 0
            },
    {
        if subscription.active {
            if let Notification::VirtualSelectedParentChainChanged(payload) = self {
                if !subscription.include_accepted_transaction_ids
                    && payload.accepted_transaction_ids.len() > 0 {
                    return Some(
                        Notification::VirtualSelectedParentChainChanged(
                            VirtualSelectedParentChainChangedNotification {
                                added_chain_block_hashes: share_arc(&payload.added_chain_block_hashes),
                                removed_chain_block_hashes: share_arc(
                                    &payload.removed_chain_block_hashes,
                                ),
                                accepted_transaction_ids: Arc::new(Vec::new()),
                            },
                        ),
                    );
                }
            }
            Some(self.duplicate())
        } else {
            None
        }
    }

    /// Pass-through: address-level filtering is deferred to the consumer.
    pub fn apply_utxos_changed_subscription(
        &self,
        _subscription: &UtxosChangedSubscription,
    ) -> (r: Option<Notification>)
        ensures
            r == Some(*self),
    {
        Some(self.duplicate())
    }
}

} // verus!
