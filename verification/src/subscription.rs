//! Per-(listener, event-type) subscription state and the scopes a caller
//! hands to `start_notify` and `stop_notify`.

use vstd::prelude::*;
use crate::address::Address;
use crate::ops::EventType;

verus! {

/// The subscription record of one listener for an event type whose filter is
/// unit: pass-through if active, drop otherwise.
#[derive(Clone, Copy, Debug)]
pub struct OverallSubscription {
    pub active: bool,
}

impl OverallSubscription {
    pub fn new() -> (r: OverallSubscription)
        ensures
            !r.active,
    {
        OverallSubscription { active: false }
    }

    pub fn active(&self) -> (r: bool)
        ensures
            r == self.active,
    {
        self.active
    }
}

/// The subscription record for the chain-changed event: the filter says
/// whether accepted transaction ids are wanted.
#[derive(Clone, Copy, Debug)]
pub struct VirtualSelectedParentChainChangedSubscription {
    pub active: bool,
    pub include_accepted_transaction_ids: bool,
}

impl VirtualSelectedParentChainChangedSubscription {
    pub fn new() -> (r: VirtualSelectedParentChainChangedSubscription)
        ensures
            !r.active,
            !r.include_accepted_transaction_ids,
    {
        VirtualSelectedParentChainChangedSubscription {
            active: false,
            include_accepted_transaction_ids: false,
        }
    }

    pub fn active(&self) -> (r: bool)
        ensures
            r == self.active,
    {
        self.active
    }

    pub fn include_accepted_transaction_ids(&self) -> (r: bool)
        ensures
            r == self.include_accepted_transaction_ids,
    {
        self.include_accepted_transaction_ids
    }
}

/// The subscription record for the UTXO-changed event: the filter is a set of
/// watched addresses, carried but not applied by the client core.
#[derive(Clone, Debug)]
pub struct UtxosChangedSubscription {
    pub active: bool,
    pub addresses: Vec<Address>,
}

impl UtxosChangedSubscription {
    pub fn new() -> (r: UtxosChangedSubscription)
        ensures
            !r.active,
            r.addresses@ == Seq::<Address>::empty(),
    {
        let r = UtxosChangedSubscription { active: false, addresses: Vec::new() };
        proof {
            assert(r.addresses@ =~= Seq::<Address>::empty());
        }
        r
    }

    pub fn active(&self) -> (r: bool)
        ensures
            r == self.active,
    {
        self.active
    }
}

/// The scope of a local subscribe or unsubscribe request: an event type
/// together with the filter the listener wants.
#[derive(Clone, Debug)]
pub enum NotificationType {
    BlockAdded,
    VirtualSelectedParentChainChanged(bool),
    FinalityConflict,
    FinalityConflictResolved,
    UtxosChanged(Vec<Address>),
    VirtualSelectedParentBlueScoreChanged,
    VirtualDaaScoreChanged,
    PruningPointUtxoSetOverride,
    NewBlockTemplate,
}

impl NotificationType {
    /// The event type this scope addresses.
    pub open spec fn spec_event_type(self) -> EventType {
        match self {
            NotificationType::BlockAdded => EventType::BlockAdded,
            NotificationType::VirtualSelectedParentChainChanged(_) => {
                EventType::VirtualSelectedParentChainChanged
            },
            NotificationType::FinalityConflict => EventType::FinalityConflict,
            NotificationType::FinalityConflictResolved => EventType::FinalityConflictResolved,
            NotificationType::UtxosChanged(_) => EventType::UtxosChanged,
            NotificationType::VirtualSelectedParentBlueScoreChanged => {
                EventType::VirtualSelectedParentBlueScoreChanged
            },
            NotificationType::VirtualDaaScoreChanged => EventType::VirtualDaaScoreChanged,
            NotificationType::PruningPointUtxoSetOverride => {
                EventType::PruningPointUtxoSetOverride
            },
            NotificationType::NewBlockTemplate => EventType::NewBlockTemplate,
        }
    }

    pub fn event_type(&self) -> (r: EventType)
        ensures
            r == self.spec_event_type(),
    {
        match self {
            NotificationType::BlockAdded => EventType::BlockAdded,
            NotificationType::VirtualSelectedParentChainChanged(_) => {
                EventType::VirtualSelectedParentChainChanged
            },
            NotificationType::FinalityConflict => EventType::FinalityConflict,
            NotificationType::FinalityConflictResolved => EventType::FinalityConflictResolved,
            NotificationType::UtxosChanged(_) => EventType::UtxosChanged,
            NotificationType::VirtualSelectedParentBlueScoreChanged => {
                EventType::VirtualSelectedParentBlueScoreChanged
            },
            NotificationType::VirtualDaaScoreChanged => EventType::VirtualDaaScoreChanged,
            NotificationType::PruningPointUtxoSetOverride => {
                EventType::PruningPointUtxoSetOverride
            },
            NotificationType::NewBlockTemplate => EventType::NewBlockTemplate,
        }
    }
}

} // verus!
