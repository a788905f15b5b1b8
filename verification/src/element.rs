//! Elements: a signed, hashed header together with its entry, as handed
//! back by the local store tiers.

use vstd::prelude::*;

use crate::entry::Entry;
use crate::header::Header;
use crate::primitives::{HeaderHash, Signature};

verus! {

/// A header paired with its signature and its hash identity, the form in
/// which headers are stored and handed around.
#[derive(Clone, Debug, PartialEq, Eq)]
pub struct SignedHeaderHashed {
    pub signature: Signature,
    pub header: Header,
    pub header_hash: HeaderHash,
}

impl SignedHeaderHashed {
    /// The header itself.
    pub fn header(&self) -> (r: &Header)
        ensures
            *r == self.header,
    {
        &self.header
    }
}

/// A signed header together with the entry it describes, if one exists
/// and is held.
#[derive(Clone, Debug, PartialEq, Eq)]
pub struct Element {
    pub signed_header: SignedHeaderHashed,
    pub entry: Option<Entry>,
}

impl Element {
    /// The hash identity under which this element is stored.
    pub open spec fn spec_header_address(&self) -> HeaderHash {
        self.signed_header.header_hash
    }

    /// Executable form of [`Self::spec_header_address`].
    pub fn header_address(&self) -> (r: HeaderHash)
        ensures
            r == self.spec_header_address(),
    {
        self.signed_header.header_hash
    }

    /// The header of this element.
    pub fn header(&self) -> (r: &Header)
        ensures
            *r == self.signed_header.header,
    {
        &self.signed_header.header
    }

    /// The entry of this element, where one is held.
    pub fn entry(&self) -> (r: &Option<Entry>)
        ensures
            *r == self.entry,
    {
        &self.entry
    }
}

} // verus!
