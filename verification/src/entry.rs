//! Entries: the content payloads that chain headers describe.

use vstd::prelude::*;

use crate::primitives::{CapTokenClaim, CapTokenGrant, PublicKey, ZomeId};

verus! {

/// An application-defined entry: raw bytes scoped to one zome.
#[derive(Clone, Debug, PartialEq, Eq)]
pub struct AppEntry {
    pub zome_id: ZomeId,
    pub entry: Vec<u8>,
}

/// The name of an application entry type, as raw bytes.
#[derive(Clone, Debug, PartialEq, Eq)]
pub struct AppEntryType(pub Vec<u8>);

/// The content of a chain element.
#[derive(Clone, Debug, PartialEq, Eq)]
pub enum Entry {
    CapTokenClaim(CapTokenClaim),
    CapTokenGrant(CapTokenGrant),
    AgentKey(PublicKey),
    /// Stores the application's provided entry data.
    App(AppEntry),
}

/// The classification of an entry, carried by the headers that create or
/// update one.
#[derive(Clone, Debug, PartialEq, Eq)]
pub enum EntryType {
    AgentKey,
    /// An application entry type, with its visibility on the shared store.
    App { zome_id: ZomeId, app_entry_type: AppEntryType, is_public: bool },
    CapTokenClaim,
    CapTokenGrant,
}

impl EntryType {
    /// Whether an entry of this type is published to the shared store in
    /// the clear. Capability tokens never leave the authoring node;
    /// agent keys always do; application entries choose per type.
    pub open spec fn spec_is_public(&self) -> bool {
        match self {
            EntryType::AgentKey => true,
            EntryType::App { is_public, .. } => *is_public,
            EntryType::CapTokenClaim => false,
            EntryType::CapTokenGrant => false,
        }
    }

    /// Executable form of [`Self::spec_is_public`].
    pub fn is_public(&self) -> (r: bool)
        ensures
            r == self.spec_is_public(),
    {
        match self {
            EntryType::AgentKey => true,
            EntryType::App { is_public, .. } => *is_public,
            EntryType::CapTokenClaim => false,
            EntryType::CapTokenGrant => false,
        }
    }
}

} // verus!
