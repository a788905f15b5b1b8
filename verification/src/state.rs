//! In-memory models of the local store tiers the resolver reads.
//!
//! Each tier pairs an element store (content-addressed signed headers with
//! their entries) with a metadata store (the cross-reference indices:
//! author to chain activity, entry to referencing headers, link base to
//! registered link-adds). Lookups find the first record with the queried
//! key; the resolver itself never mutates a store.

use vstd::prelude::*;

use crate::element::{Element, SignedHeaderHashed};
use crate::primitives::{Address, EntryHash, HeaderHash, PublicKey, SerializedBytes};

verus! {

/// A content-addressed store of elements, one logical tier's payloads.
#[derive(Clone, Debug, PartialEq, Eq)]
pub struct ElementBuf {
    pub elements: Vec<Element>,
}

/// The first element of `s` stored under `hash`, if any.
pub open spec fn spec_get_element(s: Seq<Element>, hash: HeaderHash) -> Option<Element>
    decreases s.len(),
{
    if s.len() == 0 {
        None
    } else if s[0].signed_header.header_hash == hash {
        Some(s[0])
    } else {
        spec_get_element(s.drop_first(), hash)
    }
}

/// The signed header of the first element of `s` stored under `hash`.
pub open spec fn spec_get_header(s: Seq<Element>, hash: HeaderHash) -> Option<SignedHeaderHashed> {
    match spec_get_element(s, hash) {
        Some(e) => Some(e.signed_header),
        None => None,
    }
}

impl ElementBuf {
    /// An empty store.
    pub fn new() -> (r: ElementBuf)
        ensures
            r.elements@ == Seq::<Element>::empty(),
    {
        ElementBuf { elements: Vec::new() }
    }

    /// Append one element; later queries for other keys are unaffected,
    /// and queries for this key still find the earliest record.
    pub fn put(&mut self, element: Element)
        ensures
            final(self).elements@ == old(self).elements@.push(element),
    {
        self.elements.push(element);
    }

    /// The element stored under `hash`, if this tier holds one.
    pub fn get_element(&self, hash: &HeaderHash) -> (r: Option<&Element>)
        ensures
            match r {
                Some(e) => spec_get_element(self.elements@, *hash) == Some(*e),
                None => spec_get_element(self.elements@, *hash) is None,
            },
    {
        let n = self.elements.len();
        let mut i: usize = 0;
        proof {
            assert(self.elements@.skip(0) =~= self.elements@);
        }
        while i < n
            invariant
                i <= n,
                n == self.elements@.len(),
                spec_get_element(self.elements@, *hash) == spec_get_element(
                    self.elements@.skip(i as int),
                    *hash,
                ),
            decreases n - i,
        {
            proof {
                assert(self.elements@.skip(i as int).drop_first() =~= self.elements@.skip(i + 1));
            }
            let e = &self.elements[i];
            if e.signed_header.header_hash == *hash {
                return Some(e);
            }
            i = i + 1;
        }
        None
    }

    /// The signed header stored under `hash`, if this tier holds one.
    pub fn get_header(&self, hash: &HeaderHash) -> (r: Option<&SignedHeaderHashed>)
        ensures
            match r {
                Some(sh) => spec_get_header(self.elements@, *hash) == Some(*sh),
                None => spec_get_header(self.elements@, *hash) is None,
            },
    {
        match self.get_element(hash) {
            Some(e) => Some(&e.signed_header),
            None => None,
        }
    }
}

/// The full key of a registered link: base address, tag bytes, and the
/// hash of the link-add header itself. A full key matches at most the
/// link-adds registered under exactly these three parts.
#[derive(Clone, Debug, PartialEq, Eq)]
pub struct LinkMetaKey {
    pub base: Address,
    pub tag: SerializedBytes,
    pub link_add_hash: HeaderHash,
}

/// A metadata store: one logical tier's cross-reference indices.
#[derive(Clone, Debug, PartialEq, Eq)]
pub struct MetadataBuf {
    /// Author to chain activity: which header hashes an agent committed.
    pub activity: Vec<(PublicKey, HeaderHash)>,
    /// Entry to the headers that reference it.
    pub entry_headers: Vec<(EntryHash, HeaderHash)>,
    /// The registered link-adds, under their full keys.
    pub links: Vec<LinkMetaKey>,
}

/// The first header registered under `entry_hash`, if any.
pub open spec fn spec_first_entry_header(
    s: Seq<(EntryHash, HeaderHash)>,
    entry_hash: EntryHash,
) -> Option<HeaderHash>
    decreases s.len(),
{
    if s.len() == 0 {
        None
    } else if s[0].0 == entry_hash {
        Some(s[0].1)
    } else {
        spec_first_entry_header(s.drop_first(), entry_hash)
    }
}

impl MetadataBuf {
    /// Whether `header_hash` is registered as chain activity of `author`.
    pub open spec fn spec_has_activity(&self, author: PublicKey, header_hash: HeaderHash) -> bool {
        exists|i: int|
            0 <= i < self.activity@.len() && self.activity@[i] == (author, header_hash)
    }

    /// Whether `header_hash` is registered as referencing `entry_hash`.
    pub open spec fn spec_has_entry_header(
        &self,
        entry_hash: EntryHash,
        header_hash: HeaderHash,
    ) -> bool {
        exists|i: int|
            0 <= i < self.entry_headers@.len() && self.entry_headers@[i] == (
            entry_hash,
            header_hash,
            )
    }

    /// Whether a link-add is registered under the full key.
    pub open spec fn spec_has_link(
        &self,
        base: Address,
        tag: Seq<u8>,
        link_add_hash: HeaderHash,
    ) -> bool {
        exists|i: int|
            0 <= i < self.links@.len() && (#[trigger] self.links@[i]).base == base
                && self.links@[i].tag@ == tag && self.links@[i].link_add_hash == link_add_hash
    }

    /// An empty store.
    pub fn new() -> (r: MetadataBuf)
        ensures
            r.activity@ == Seq::<(PublicKey, HeaderHash)>::empty(),
            r.entry_headers@ == Seq::<(EntryHash, HeaderHash)>::empty(),
            r.links@ == Seq::<LinkMetaKey>::empty(),
    {
        MetadataBuf { activity: Vec::new(), entry_headers: Vec::new(), links: Vec::new() }
    }

    /// Register one header as chain activity of its author.
    pub fn register_activity(&mut self, author: PublicKey, header_hash: HeaderHash)
        ensures
            final(self).activity@ == old(self).activity@.push((author, header_hash)),
            final(self).entry_headers@ == old(self).entry_headers@,
            final(self).links@ == old(self).links@,
    {
        self.activity.push((author, header_hash));
    }

    /// Register one header as referencing an entry.
    pub fn register_header(&mut self, entry_hash: EntryHash, header_hash: HeaderHash)
        ensures
            final(self).entry_headers@ == old(self).entry_headers@.push(
                (entry_hash, header_hash),
            ),
            final(self).activity@ == old(self).activity@,
            final(self).links@ == old(self).links@,
    {
        self.entry_headers.push((entry_hash, header_hash));
    }

    /// Register one link-add under its full key.
    pub fn add_link(&mut self, key: LinkMetaKey)
        ensures
            final(self).links@ == old(self).links@.push(key),
            final(self).activity@ == old(self).activity@,
            final(self).entry_headers@ == old(self).entry_headers@,
    {
        self.links.push(key);
    }

    /// Executable form of [`Self::spec_has_activity`].
    pub fn has_activity(&self, author: &PublicKey, header_hash: &HeaderHash) -> (r: bool)
        ensures
            r == self.spec_has_activity(*author, *header_hash),
    {
        let n = self.activity.len();
        let mut i: usize = 0;
        while i < n
            invariant
                i <= n,
                n == self.activity@.len(),
                forall|j: int| 0 <= j < i ==> self.activity@[j] != (*author, *header_hash),
            decreases n - i,
        {
            let (a, h) = self.activity[i];
            if a == *author && h == *header_hash {
                return true;
            }
            i = i + 1;
        }
        false
    }

    /// Executable form of [`Self::spec_first_entry_header`] on this store.
    pub fn first_entry_header(&self, entry_hash: &EntryHash) -> (r: Option<HeaderHash>)
        ensures
            r == spec_first_entry_header(self.entry_headers@, *entry_hash),
    {
        let n = self.entry_headers.len();
        let mut i: usize = 0;
        proof {
            assert(self.entry_headers@.skip(0) =~= self.entry_headers@);
        }
        while i < n
            invariant
                i <= n,
                n == self.entry_headers@.len(),
                spec_first_entry_header(self.entry_headers@, *entry_hash)
                    == spec_first_entry_header(
                    self.entry_headers@.skip(i as int),
                    *entry_hash,
                ),
            decreases n - i,
        {
            proof {
                assert(self.entry_headers@.skip(i as int).drop_first() =~= self.entry_headers@.skip(
                    i + 1,
                ));
            }
            let (e, h) = self.entry_headers[i];
            if e == *entry_hash {
                return Some(h);
            }
            i = i + 1;
        }
        None
    }

    /// Executable form of [`Self::spec_has_link`].
    pub fn has_link(&self, base: &Address, tag: &SerializedBytes, link_add_hash: &HeaderHash) -> (r:
        bool)
        ensures
            r == self.spec_has_link(*base, tag@, *link_add_hash),
    {
        let n = self.links.len();
        let mut i: usize = 0;
        while i < n
            invariant
                i <= n,
                n == self.links@.len(),
                forall|j: int|
                    0 <= j < i ==> !((#[trigger] self.links@[j]).base == *base
                        && self.links@[j].tag@ == tag@ && self.links@[j].link_add_hash
                        == *link_add_hash),
            decreases n - i,
        {
            let key = &self.links[i];
            if key.base == *base && key.link_add_hash == *link_add_hash && key.tag.bytes_eq(tag) {
                return true;
            }
            i = i + 1;
        }
        false
    }
}

/// The read-scoped workspace of one validation attempt: all three tiers'
/// element and metadata stores.
#[derive(Clone, Debug, PartialEq, Eq)]
pub struct SysValidationWorkspace {
    /// Authoritative, fully integrated data.
    pub element_vault: ElementBuf,
    pub meta_vault: MetadataBuf,
    /// Validated data awaiting integration bookkeeping; authoritative.
    pub element_judged: ElementBuf,
    pub meta_judged: MetadataBuf,
    /// Limbo: data held but not yet validated.
    pub element_pending: ElementBuf,
    pub meta_pending: MetadataBuf,
}

impl SysValidationWorkspace {
    /// A workspace over empty tiers.
    pub fn new() -> (r: SysValidationWorkspace)
        ensures
            r.element_vault.elements@ == Seq::<Element>::empty(),
            r.element_judged.elements@ == Seq::<Element>::empty(),
            r.element_pending.elements@ == Seq::<Element>::empty(),
            r.meta_vault.activity@ == Seq::<(PublicKey, HeaderHash)>::empty(),
            r.meta_vault.entry_headers@ == Seq::<(EntryHash, HeaderHash)>::empty(),
            r.meta_vault.links@ == Seq::<LinkMetaKey>::empty(),
            r.meta_judged.activity@ == Seq::<(PublicKey, HeaderHash)>::empty(),
            r.meta_judged.entry_headers@ == Seq::<(EntryHash, HeaderHash)>::empty(),
            r.meta_judged.links@ == Seq::<LinkMetaKey>::empty(),
            r.meta_pending.activity@ == Seq::<(PublicKey, HeaderHash)>::empty(),
            r.meta_pending.entry_headers@ == Seq::<(EntryHash, HeaderHash)>::empty(),
            r.meta_pending.links@ == Seq::<LinkMetaKey>::empty(),
    {
        SysValidationWorkspace {
            element_vault: ElementBuf::new(),
            meta_vault: MetadataBuf::new(),
            element_judged: ElementBuf::new(),
            meta_judged: MetadataBuf::new(),
            element_pending: ElementBuf::new(),
            meta_pending: MetadataBuf::new(),
        }
    }
}

} // verus!
