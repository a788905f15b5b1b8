//! The tiered dependency resolver: for a single fact an operation depends
//! on, decide whether this node can vouch for it, and how strongly.
//!
//! Every lookup searches the local tiers in order of authority — `vault`,
//! then `judged` (both reported as [`Dependency::Proof`]), then `pending`
//! (reported as [`Dependency::PendingValidation`]). Under
//! [`CheckLevel::Proof`] a miss fails with the recoverable
//! [`ValidationOutcome::NotHoldingDep`]; under [`CheckLevel::Claim`] the
//! caller's network fetch is consulted as a fallback, its answer reported
//! as [`Dependency::Claim`] and its denial failing with the terminal
//! [`ValidationOutcome::DepMissingFromDht`].
//!
//! The network fetch itself is asynchronous I/O and lives with the caller:
//! each check takes the fetched value as an argument and is verified for
//! every possible answer.

use vstd::prelude::*;

use crate::composite::AnyDhtHash;
use crate::element::{Element, SignedHeaderHashed};
use crate::header::Header;
use crate::primitives::{EntryHash, HeaderHash, PublicKey};
use crate::state::{spec_first_entry_header, spec_get_element, spec_get_header, ElementBuf,
    MetadataBuf, SysValidationWorkspace};
use crate::sys_validate::{spec_confidence_min, CheckLevel, Dependency, SysValidationResult,
    ValidationOutcome};

verus! {

/// A graded borrowed fact, as a graded owned fact.
pub open spec fn spec_deref<T>(d: Dependency<&T>) -> Dependency<T> {
    match d {
        Dependency::Proof(t) => Dependency::Proof(*t),
        Dependency::Claim(t) => Dependency::Claim(*t),
        Dependency::PendingValidation(t) => Dependency::PendingValidation(*t),
    }
}

/// A borrowed network answer, as an owned one.
pub open spec fn spec_opt_val<T>(o: Option<&T>) -> Option<T> {
    match o {
        Some(t) => Some(*t),
        None => None,
    }
}

/// The first element stored under `hash` whose entry is held too.
pub open spec fn spec_get_present_element(s: Seq<Element>, hash: HeaderHash) -> Option<Element> {
    match spec_get_element(s, hash) {
        Some(e) => if e.entry is Some {
            Some(e)
        } else {
            None
        },
        None => None,
    }
}

/// The element one tier reaches from an entry hash: the first header its
/// metadata registers for the entry, looked up in its element store.
pub open spec fn spec_get_entry_element(
    elements: Seq<Element>,
    meta: MetadataBuf,
    entry_hash: EntryHash,
) -> Option<Element> {
    match spec_first_entry_header(meta.entry_headers@, entry_hash) {
        Some(hh) => spec_get_element(elements, hh),
        None => None,
    }
}

/// The local tiers' answer for a header: vault and judged vouch as proof,
/// pending only as pending validation.
pub open spec fn spec_local_header(ws: SysValidationWorkspace, hash: HeaderHash) -> Option<
    Dependency<SignedHeaderHashed>,
> {
    match spec_get_header(ws.element_vault.elements@, hash) {
        Some(sh) => Some(Dependency::Proof(sh)),
        None => match spec_get_header(ws.element_judged.elements@, hash) {
            Some(sh) => Some(Dependency::Proof(sh)),
            None => match spec_get_header(ws.element_pending.elements@, hash) {
                Some(sh) => Some(Dependency::PendingValidation(sh)),
                None => None,
            },
        },
    }
}

/// The local tiers' answer for an element that must hold its entry.
pub open spec fn spec_local_element(ws: SysValidationWorkspace, hash: HeaderHash) -> Option<
    Dependency<Element>,
> {
    match spec_get_present_element(ws.element_vault.elements@, hash) {
        Some(e) => Some(Dependency::Proof(e)),
        None => match spec_get_present_element(ws.element_judged.elements@, hash) {
            Some(e) => Some(Dependency::Proof(e)),
            None => match spec_get_present_element(ws.element_pending.elements@, hash) {
                Some(e) => Some(Dependency::PendingValidation(e)),
                None => None,
            },
        },
    }
}

/// The local tiers' answer for an entry, reached through each tier's own
/// metadata index.
pub open spec fn spec_local_entry(ws: SysValidationWorkspace, entry_hash: EntryHash) -> Option<
    Dependency<Element>,
> {
    match spec_get_entry_element(ws.element_vault.elements@, ws.meta_vault, entry_hash) {
        Some(e) => Some(Dependency::Proof(e)),
        None => match spec_get_entry_element(
            ws.element_judged.elements@,
            ws.meta_judged,
            entry_hash,
        ) {
            Some(e) => Some(Dependency::Proof(e)),
            None => match spec_get_entry_element(
                ws.element_pending.elements@,
                ws.meta_pending,
                entry_hash,
            ) {
                Some(e) => Some(Dependency::PendingValidation(e)),
                None => None,
            },
        },
    }
}

/// The local metadata tiers' answer for a chain-activity registration.
pub open spec fn spec_local_activity(
    ws: SysValidationWorkspace,
    author: PublicKey,
    hash: HeaderHash,
) -> Option<Dependency<()>> {
    if ws.meta_vault.spec_has_activity(author, hash) {
        Some(Dependency::Proof(()))
    } else if ws.meta_judged.spec_has_activity(author, hash) {
        Some(Dependency::Proof(()))
    } else if ws.meta_pending.spec_has_activity(author, hash) {
        Some(Dependency::PendingValidation(()))
    } else {
        None
    }
}

/// The local metadata tiers' answer for an entry-to-header registration.
pub open spec fn spec_local_entry_header(
    ws: SysValidationWorkspace,
    entry_hash: EntryHash,
    header_hash: HeaderHash,
) -> Option<Dependency<()>> {
    if ws.meta_vault.spec_has_entry_header(entry_hash, header_hash) {
        Some(Dependency::Proof(()))
    } else if ws.meta_judged.spec_has_entry_header(entry_hash, header_hash) {
        Some(Dependency::Proof(()))
    } else if ws.meta_pending.spec_has_entry_header(entry_hash, header_hash) {
        Some(Dependency::PendingValidation(()))
    } else {
        None
    }
}

/// The local metadata tiers' answer for a registered link-add key.
pub open spec fn spec_local_link(
    ws: SysValidationWorkspace,
    base: crate::primitives::Address,
    tag: Seq<u8>,
    hash: HeaderHash,
) -> Option<Dependency<()>> {
    if ws.meta_vault.spec_has_link(base, tag, hash) {
        Some(Dependency::Proof(()))
    } else if ws.meta_judged.spec_has_link(base, tag, hash) {
        Some(Dependency::Proof(()))
    } else if ws.meta_pending.spec_has_link(base, tag, hash) {
        Some(Dependency::PendingValidation(()))
    } else {
        None
    }
}

/// What a header check returns: the local answer, else — only under
/// [`CheckLevel::Claim`] — the network's answer as a claim, else the
/// failure the level prescribes.
pub open spec fn spec_check_header(
    ws: SysValidationWorkspace,
    hash: HeaderHash,
    network: Option<SignedHeaderHashed>,
    level: CheckLevel,
) -> Result<Dependency<SignedHeaderHashed>, ValidationOutcome> {
    match spec_local_header(ws, hash) {
        Some(d) => Ok(d),
        None => match level {
            CheckLevel::Proof => Err(ValidationOutcome::NotHoldingDep(AnyDhtHash::Header(hash))),
            CheckLevel::Claim => match network {
                Some(sh) => Ok(Dependency::Claim(sh)),
                None => Err(ValidationOutcome::DepMissingFromDht(AnyDhtHash::Header(hash))),
            },
        },
    }
}

/// What an element check returns, as [`spec_check_header`].
pub open spec fn spec_check_element(
    ws: SysValidationWorkspace,
    hash: HeaderHash,
    network: Option<Element>,
    level: CheckLevel,
) -> Result<Dependency<Element>, ValidationOutcome> {
    match spec_local_element(ws, hash) {
        Some(d) => Ok(d),
        None => match level {
            CheckLevel::Proof => Err(ValidationOutcome::NotHoldingDep(AnyDhtHash::Header(hash))),
            CheckLevel::Claim => match network {
                Some(e) => Ok(Dependency::Claim(e)),
                None => Err(ValidationOutcome::DepMissingFromDht(AnyDhtHash::Header(hash))),
            },
        },
    }
}

/// What an entry check returns, as [`spec_check_header`].
pub open spec fn spec_check_entry(
    ws: SysValidationWorkspace,
    entry_hash: EntryHash,
    network: Option<Element>,
    level: CheckLevel,
) -> Result<Dependency<Element>, ValidationOutcome> {
    match spec_local_entry(ws, entry_hash) {
        Some(d) => Ok(d),
        None => match level {
            CheckLevel::Proof => Err(
                ValidationOutcome::NotHoldingDep(AnyDhtHash::Entry(entry_hash)),
            ),
            CheckLevel::Claim => match network {
                Some(e) => Ok(Dependency::Claim(e)),
                None => Err(ValidationOutcome::DepMissingFromDht(AnyDhtHash::Entry(entry_hash))),
            },
        },
    }
}

/// What the composite previous-header check returns under proof level:
/// both the header and its activity registration must be held, and the
/// result's confidence is the weaker of the two legs.
pub open spec fn spec_check_prev_header_local(
    ws: SysValidationWorkspace,
    author: PublicKey,
    hash: HeaderHash,
) -> Result<Dependency<SignedHeaderHashed>, ValidationOutcome> {
    match spec_local_activity(ws, author, hash) {
        None => Err(ValidationOutcome::NotHoldingDep(AnyDhtHash::Header(hash))),
        Some(meta_dep) => match spec_local_header(ws, hash) {
            None => Err(ValidationOutcome::NotHoldingDep(AnyDhtHash::Header(hash))),
            Some(d) => Ok(spec_confidence_min(d, meta_dep)),
        },
    }
}

/// What the composite store-entry check returns under proof level.
pub open spec fn spec_check_store_entry_local(
    ws: SysValidationWorkspace,
    entry_hash: EntryHash,
    header_hash: HeaderHash,
) -> Result<Dependency<Element>, ValidationOutcome> {
    match spec_local_entry_header(ws, entry_hash, header_hash) {
        None => Err(ValidationOutcome::NotHoldingDep(AnyDhtHash::Header(header_hash))),
        Some(meta_dep) => match spec_local_element(ws, header_hash) {
            None => Err(ValidationOutcome::NotHoldingDep(AnyDhtHash::Header(header_hash))),
            Some(d) => Ok(spec_confidence_min(d, meta_dep)),
        },
    }
}

/// What the composite link-add check returns under proof level: the held
/// header must itself add a link, and its full key must be registered.
pub open spec fn spec_check_link_add_local(ws: SysValidationWorkspace, hash: HeaderHash) -> Result<
    Dependency<SignedHeaderHashed>,
    ValidationOutcome,
> {
    match spec_local_header(ws, hash) {
        None => Err(ValidationOutcome::NotHoldingDep(AnyDhtHash::Header(hash))),
        Some(d) => match d.spec_payload().header {
            Header::LinkAdd(la) => match spec_local_link(ws, la.base, la.tag@, hash) {
                None => Err(ValidationOutcome::NotHoldingDep(AnyDhtHash::Header(hash))),
                Some(meta_dep) => Ok(spec_confidence_min(d, meta_dep)),
            },
            _ => Err(ValidationOutcome::NotCreateLink(hash)),
        },
    }
}

/// What one tier's link metadata check returns.
pub open spec fn spec_check_link_in_metadata(
    link_add: Header,
    link_add_hash: HeaderHash,
    meta: MetadataBuf,
) -> Result<(), ValidationOutcome> {
    match link_add {
        Header::LinkAdd(la) => if meta.spec_has_link(la.base, la.tag@, link_add_hash) {
            Ok(())
        } else {
            Err(ValidationOutcome::NotHoldingDep(AnyDhtHash::Header(link_add_hash)))
        },
        _ => Err(ValidationOutcome::NotCreateLink(link_add_hash)),
    }
}

/// Check that one tier holds the header, and return it.
pub fn check_holding_header<'a>(hash: &HeaderHash, element_vault: &'a ElementBuf) -> (r:
    SysValidationResult<&'a SignedHeaderHashed>)
    ensures
        match r {
            Ok(sh) => spec_get_header(element_vault.elements@, *hash) == Some(*sh),
            Err(e) => spec_get_header(element_vault.elements@, *hash) is None && e
                == ValidationOutcome::NotHoldingDep(AnyDhtHash::Header(*hash)),
        },
{
    match element_vault.get_header(hash) {
        Some(sh) => Ok(sh),
        None => Err(ValidationOutcome::NotHoldingDep(AnyDhtHash::Header(*hash))),
    }
}

/// Check that one tier holds the element and its entry, and return it.
pub fn check_holding_element<'a>(hash: &HeaderHash, element_vault: &'a ElementBuf) -> (r:
    SysValidationResult<&'a Element>)
    ensures
        match r {
            Ok(e) => spec_get_present_element(element_vault.elements@, *hash) == Some(*e),
            Err(e) => spec_get_present_element(element_vault.elements@, *hash) is None && e
                == ValidationOutcome::NotHoldingDep(AnyDhtHash::Header(*hash)),
        },
{
    match element_vault.get_element(hash) {
        Some(el) => match &el.entry {
            Some(_) => Ok(el),
            None => Err(ValidationOutcome::NotHoldingDep(AnyDhtHash::Header(*hash))),
        },
        None => Err(ValidationOutcome::NotHoldingDep(AnyDhtHash::Header(*hash))),
    }
}

/// Check that one tier holds an entry: its metadata must register a
/// header for the entry, and the element store must hold that header's
/// element.
pub fn check_holding_entry<'a>(
    hash: &EntryHash,
    element_vault: &'a ElementBuf,
    meta_vault: &MetadataBuf,
) -> (r: SysValidationResult<&'a Element>)
    ensures
        match r {
            Ok(e) => spec_get_entry_element(element_vault.elements@, *meta_vault, *hash) == Some(
                *e,
            ),
            Err(e) => spec_get_entry_element(element_vault.elements@, *meta_vault, *hash) is None
                && e == ValidationOutcome::NotHoldingDep(AnyDhtHash::Entry(*hash)),
        },
{
    let entry_header = match meta_vault.first_entry_header(hash) {
        Some(hh) => hh,
        None => {
            return Err(ValidationOutcome::NotHoldingDep(AnyDhtHash::Entry(*hash)));
        },
    };
    match element_vault.get_element(&entry_header) {
        Some(el) => Ok(el),
        None => Err(ValidationOutcome::NotHoldingDep(AnyDhtHash::Entry(*hash))),
    }
}

/// Check that one tier's metadata registers the previous header as chain
/// activity of its author.
pub fn check_prev_header_in_metadata(
    author: &PublicKey,
    prev_header_hash: &HeaderHash,
    meta_vault: &MetadataBuf,
) -> (r: SysValidationResult<()>)
    ensures
        match r {
            Ok(u) => meta_vault.spec_has_activity(*author, *prev_header_hash),
            Err(e) => !meta_vault.spec_has_activity(*author, *prev_header_hash) && e
                == ValidationOutcome::NotHoldingDep(AnyDhtHash::Header(*prev_header_hash)),
        },
{
    if meta_vault.has_activity(author, prev_header_hash) {
        Ok(())
    } else {
        Err(ValidationOutcome::NotHoldingDep(AnyDhtHash::Header(*prev_header_hash)))
    }
}

/// Check that one tier's metadata registers the header as a reference
/// from the entry.
pub fn check_header_in_metadata(
    entry_hash: &EntryHash,
    header_hash: &HeaderHash,
    meta_vault: &MetadataBuf,
) -> (r: SysValidationResult<()>)
    ensures
        match r {
            Ok(u) => meta_vault.spec_has_entry_header(*entry_hash, *header_hash),
            Err(e) => !meta_vault.spec_has_entry_header(*entry_hash, *header_hash) && e
                == ValidationOutcome::NotHoldingDep(AnyDhtHash::Header(*header_hash)),
        },
{
    let mut found = false;
    let n = meta_vault.entry_headers.len();
    let mut i: usize = 0;
    while i < n
        invariant
            i <= n,
            n == meta_vault.entry_headers@.len(),
            forall|j: int| 0 <= j < i ==> meta_vault.entry_headers@[j] != (*entry_hash, *header_hash),
        decreases n - i,
    {
        let (e, h) = meta_vault.entry_headers[i];
        if e == *entry_hash && h == *header_hash {
            return Ok(());
        }
        i = i + 1;
    }
    Err(ValidationOutcome::NotHoldingDep(AnyDhtHash::Header(*header_hash)))
}

/// Check that one tier's metadata registers the link-add under its full
/// key, derived from the link-add header itself. A header that does not
/// add a link fails with [`ValidationOutcome::NotCreateLink`].
pub fn check_link_in_metadata(
    link_add: &Header,
    link_add_hash: &HeaderHash,
    meta_vault: &MetadataBuf,
) -> (r: SysValidationResult<()>)
    ensures
        match r {
            Ok(u) => spec_check_link_in_metadata(*link_add, *link_add_hash, *meta_vault) == Ok::<
                (),
                ValidationOutcome,
            >(()),
            Err(e) => spec_check_link_in_metadata(*link_add, *link_add_hash, *meta_vault) == Err::<
                (),
                ValidationOutcome,
            >(e),
        },
{
    match link_add {
        Header::LinkAdd(la) => {
            if meta_vault.has_link(&la.base, &la.tag, link_add_hash) {
                Ok(())
            } else {
                Err(ValidationOutcome::NotHoldingDep(AnyDhtHash::Header(*link_add_hash)))
            }
        },
        _ => Err(ValidationOutcome::NotCreateLink(*link_add_hash)),
    }
}

fn check_holding_header_inner<'a>(hash: &HeaderHash, workspace: &'a SysValidationWorkspace) -> (r:
    SysValidationResult<Dependency<&'a SignedHeaderHashed>>)
    ensures
        match r {
            Ok(d) => spec_local_header(*workspace, *hash) == Some(spec_deref(d)),
            Err(e) => spec_local_header(*workspace, *hash) is None && e
                == ValidationOutcome::NotHoldingDep(AnyDhtHash::Header(*hash)),
        },
{
    match workspace.element_vault.get_header(hash) {
        Some(sh) => {
            return Ok(Dependency::Proof(sh));
        },
        None => {},
    }
    match workspace.element_judged.get_header(hash) {
        Some(sh) => {
            return Ok(Dependency::Proof(sh));
        },
        None => {},
    }
    match workspace.element_pending.get_header(hash) {
        Some(sh) => {
            return Ok(Dependency::PendingValidation(sh));
        },
        None => {},
    }
    Err(ValidationOutcome::NotHoldingDep(AnyDhtHash::Header(*hash)))
}

fn check_holding_element_inner<'a>(hash: &HeaderHash, workspace: &'a SysValidationWorkspace) -> (r:
    SysValidationResult<Dependency<&'a Element>>)
    ensures
        match r {
            Ok(d) => spec_local_element(*workspace, *hash) == Some(spec_deref(d)),
            Err(e) => spec_local_element(*workspace, *hash) is None && e
                == ValidationOutcome::NotHoldingDep(AnyDhtHash::Header(*hash)),
        },
{
    match check_holding_element(hash, &workspace.element_vault) {
        Ok(el) => {
            return Ok(Dependency::Proof(el));
        },
        Err(_) => {},
    }
    match check_holding_element(hash, &workspace.element_judged) {
        Ok(el) => {
            return Ok(Dependency::Proof(el));
        },
        Err(_) => {},
    }
    match check_holding_element(hash, &workspace.element_pending) {
        Ok(el) => {
            return Ok(Dependency::PendingValidation(el));
        },
        Err(_) => {},
    }
    Err(ValidationOutcome::NotHoldingDep(AnyDhtHash::Header(*hash)))
}

fn check_holding_entry_inner<'a>(hash: &EntryHash, workspace: &'a SysValidationWorkspace) -> (r:
    SysValidationResult<Dependency<&'a Element>>)
    ensures
        match r {
            Ok(d) => spec_local_entry(*workspace, *hash) == Some(spec_deref(d)),
            Err(e) => spec_local_entry(*workspace, *hash) is None && e
                == ValidationOutcome::NotHoldingDep(AnyDhtHash::Entry(*hash)),
        },
{
    match check_holding_entry(hash, &workspace.element_vault, &workspace.meta_vault) {
        Ok(el) => {
            return Ok(Dependency::Proof(el));
        },
        Err(_) => {},
    }
    match check_holding_entry(hash, &workspace.element_judged, &workspace.meta_judged) {
        Ok(el) => {
            return Ok(Dependency::Proof(el));
        },
        Err(_) => {},
    }
    match check_holding_entry(hash, &workspace.element_pending, &workspace.meta_pending) {
        Ok(el) => {
            return Ok(Dependency::PendingValidation(el));
        },
        Err(_) => {},
    }
    Err(ValidationOutcome::NotHoldingDep(AnyDhtHash::Entry(*hash)))
}

fn check_prev_header_in_metadata_all(
    author: &PublicKey,
    prev_header_hash: &HeaderHash,
    workspace: &SysValidationWorkspace,
) -> (r: SysValidationResult<Dependency<()>>)
    ensures
        match r {
            Ok(d) => spec_local_activity(*workspace, *author, *prev_header_hash) == Some(d),
            Err(e) => spec_local_activity(*workspace, *author, *prev_header_hash) is None && e
                == ValidationOutcome::NotHoldingDep(AnyDhtHash::Header(*prev_header_hash)),
        },
{
    if workspace.meta_vault.has_activity(author, prev_header_hash) {
        Ok(Dependency::Proof(()))
    } else if workspace.meta_judged.has_activity(author, prev_header_hash) {
        Ok(Dependency::Proof(()))
    } else if workspace.meta_pending.has_activity(author, prev_header_hash) {
        Ok(Dependency::PendingValidation(()))
    } else {
        Err(ValidationOutcome::NotHoldingDep(AnyDhtHash::Header(*prev_header_hash)))
    }
}

fn check_header_in_metadata_all(
    entry_hash: &EntryHash,
    header_hash: &HeaderHash,
    workspace: &SysValidationWorkspace,
) -> (r: SysValidationResult<Dependency<()>>)
    ensures
        match r {
            Ok(d) => spec_local_entry_header(*workspace, *entry_hash, *header_hash) == Some(d),
            Err(e) => spec_local_entry_header(*workspace, *entry_hash, *header_hash) is None && e
                == ValidationOutcome::NotHoldingDep(AnyDhtHash::Header(*header_hash)),
        },
{
    match check_header_in_metadata(entry_hash, header_hash, &workspace.meta_vault) {
        Ok(_) => {
            return Ok(Dependency::Proof(()));
        },
        Err(_) => {},
    }
    match check_header_in_metadata(entry_hash, header_hash, &workspace.meta_judged) {
        Ok(_) => {
            return Ok(Dependency::Proof(()));
        },
        Err(_) => {},
    }
    match check_header_in_metadata(entry_hash, header_hash, &workspace.meta_pending) {
        Ok(_) => {
            return Ok(Dependency::PendingValidation(()));
        },
        Err(_) => {},
    }
    Err(ValidationOutcome::NotHoldingDep(AnyDhtHash::Header(*header_hash)))
}

fn check_link_in_metadata_all(
    link_add: &Header,
    header_hash: &HeaderHash,
    workspace: &SysValidationWorkspace,
) -> (r: SysValidationResult<Dependency<()>>)
    requires
        link_add is LinkAdd,
    ensures
        match r {
            Ok(d) => spec_local_link(
                *workspace,
                link_add->LinkAdd_0.base,
                link_add->LinkAdd_0.tag@,
                *header_hash,
            ) == Some(d),
            Err(e) => spec_local_link(
                *workspace,
                link_add->LinkAdd_0.base,
                link_add->LinkAdd_0.tag@,
                *header_hash,
            ) is None && e == ValidationOutcome::NotHoldingDep(AnyDhtHash::Header(*header_hash)),
        },
{
    let la = match link_add {
        Header::LinkAdd(la) => la,
        _ => {
            return Err(ValidationOutcome::NotHoldingDep(AnyDhtHash::Header(*header_hash)));
        },
    };
    if workspace.meta_vault.has_link(&la.base, &la.tag, header_hash) {
        Ok(Dependency::Proof(()))
    } else if workspace.meta_judged.has_link(&la.base, &la.tag, header_hash) {
        Ok(Dependency::Proof(()))
    } else if workspace.meta_pending.has_link(&la.base, &la.tag, header_hash) {
        Ok(Dependency::PendingValidation(()))
    } else {
        Err(ValidationOutcome::NotHoldingDep(AnyDhtHash::Header(*header_hash)))
    }
}

/// Check that the header exists: local tiers first, then the caller's
/// network fetch, whose denial is terminal.
pub fn check_header_exists<'a>(
    hash: HeaderHash,
    workspace: &'a SysValidationWorkspace,
    network_response: Option<&'a SignedHeaderHashed>,
) -> (r: SysValidationResult<Dependency<&'a SignedHeaderHashed>>)
    ensures
        match r {
            Ok(d) => spec_check_header(
                *workspace,
                hash,
                spec_opt_val(network_response),
                CheckLevel::Claim,
            ) == Ok::<_, ValidationOutcome>(spec_deref(d)),
            Err(e) => spec_check_header(
                *workspace,
                hash,
                spec_opt_val(network_response),
                CheckLevel::Claim,
            ) == Err::<Dependency<SignedHeaderHashed>, _>(e),
        },
{
    match check_holding_header_inner(&hash, workspace) {
        Ok(d) => Ok(d),
        Err(_) => match network_response {
            Some(sh) => Ok(Dependency::Claim(sh)),
            None => Err(ValidationOutcome::DepMissingFromDht(AnyDhtHash::Header(hash))),
        },
    }
}

/// Check that the element exists, as [`check_header_exists`].
pub fn check_element_exists<'a>(
    hash: HeaderHash,
    workspace: &'a SysValidationWorkspace,
    network_response: Option<&'a Element>,
) -> (r: SysValidationResult<Dependency<&'a Element>>)
    ensures
        match r {
            Ok(d) => spec_check_element(
                *workspace,
                hash,
                spec_opt_val(network_response),
                CheckLevel::Claim,
            ) == Ok::<_, ValidationOutcome>(spec_deref(d)),
            Err(e) => spec_check_element(
                *workspace,
                hash,
                spec_opt_val(network_response),
                CheckLevel::Claim,
            ) == Err::<Dependency<Element>, _>(e),
        },
{
    match check_holding_element_inner(&hash, workspace) {
        Ok(d) => Ok(d),
        Err(_) => match network_response {
            Some(el) => Ok(Dependency::Claim(el)),
            None => Err(ValidationOutcome::DepMissingFromDht(AnyDhtHash::Header(hash))),
        },
    }
}

/// Check that the entry exists, as [`check_header_exists`].
pub fn check_entry_exists<'a>(
    entry_hash: EntryHash,
    workspace: &'a SysValidationWorkspace,
    network_response: Option<&'a Element>,
) -> (r: SysValidationResult<Dependency<&'a Element>>)
    ensures
        match r {
            Ok(d) => spec_check_entry(
                *workspace,
                entry_hash,
                spec_opt_val(network_response),
                CheckLevel::Claim,
            ) == Ok::<_, ValidationOutcome>(spec_deref(d)),
            Err(e) => spec_check_entry(
                *workspace,
                entry_hash,
                spec_opt_val(network_response),
                CheckLevel::Claim,
            ) == Err::<Dependency<Element>, _>(e),
        },
{
    match check_holding_entry_inner(&entry_hash, workspace) {
        Ok(d) => Ok(d),
        Err(_) => match network_response {
            Some(el) => Ok(Dependency::Claim(el)),
            None => Err(ValidationOutcome::DepMissingFromDht(AnyDhtHash::Entry(entry_hash))),
        },
    }
}

/// Check the local tiers for a dependent entry, falling back to the
/// caller's network fetch only under [`CheckLevel::Claim`].
pub fn check_holding_entry_all<'a>(
    hash: &EntryHash,
    workspace: &'a SysValidationWorkspace,
    network_response: Option<&'a Element>,
    check_level: CheckLevel,
) -> (r: SysValidationResult<Dependency<&'a Element>>)
    ensures
        match r {
            Ok(d) => spec_check_entry(
                *workspace,
                *hash,
                spec_opt_val(network_response),
                check_level,
            ) == Ok::<_, ValidationOutcome>(spec_deref(d)),
            Err(e) => spec_check_entry(
                *workspace,
                *hash,
                spec_opt_val(network_response),
                check_level,
            ) == Err::<Dependency<Element>, _>(e),
        },
{
    match check_level {
        CheckLevel::Proof => check_holding_entry_inner(hash, workspace),
        CheckLevel::Claim => check_entry_exists(*hash, workspace, network_response),
    }
}

/// Check the local tiers for a dependent header, falling back to the
/// caller's network fetch only under [`CheckLevel::Claim`].
pub fn check_holding_header_all<'a>(
    hash: &HeaderHash,
    workspace: &'a SysValidationWorkspace,
    network_response: Option<&'a SignedHeaderHashed>,
    check_level: CheckLevel,
) -> (r: SysValidationResult<Dependency<&'a SignedHeaderHashed>>)
    ensures
        match r {
            Ok(d) => spec_check_header(
                *workspace,
                *hash,
                spec_opt_val(network_response),
                check_level,
            ) == Ok::<_, ValidationOutcome>(spec_deref(d)),
            Err(e) => spec_check_header(
                *workspace,
                *hash,
                spec_opt_val(network_response),
                check_level,
            ) == Err::<Dependency<SignedHeaderHashed>, _>(e),
        },
{
    match check_level {
        CheckLevel::Proof => check_holding_header_inner(hash, workspace),
        CheckLevel::Claim => check_header_exists(*hash, workspace, network_response),
    }
}

/// Check the local tiers for a dependent element, falling back to the
/// caller's network fetch only under [`CheckLevel::Claim`].
pub fn check_holding_element_all<'a>(
    hash: &HeaderHash,
    workspace: &'a SysValidationWorkspace,
    network_response: Option<&'a Element>,
    check_level: CheckLevel,
) -> (r: SysValidationResult<Dependency<&'a Element>>)
    ensures
        match r {
            Ok(d) => spec_check_element(
                *workspace,
                *hash,
                spec_opt_val(network_response),
                check_level,
            ) == Ok::<_, ValidationOutcome>(spec_deref(d)),
            Err(e) => spec_check_element(
                *workspace,
                *hash,
                spec_opt_val(network_response),
                check_level,
            ) == Err::<Dependency<Element>, _>(e),
        },
{
    match check_level {
        CheckLevel::Proof => check_holding_element_inner(hash, workspace),
        CheckLevel::Claim => check_element_exists(*hash, workspace, network_response),
    }
}

/// Check that the previous header is held: under proof level both the
/// header and its chain-activity registration must be held locally, the
/// result graded by the weaker leg; under claim level the plain header
/// check with network fallback runs instead.
pub fn check_holding_prev_header_all<'a>(
    author: &PublicKey,
    prev_header_hash: &HeaderHash,
    workspace: &'a SysValidationWorkspace,
    network_response: Option<&'a SignedHeaderHashed>,
    check_level: CheckLevel,
) -> (r: SysValidationResult<Dependency<&'a SignedHeaderHashed>>)
    ensures
        match r {
            Ok(d) => (match check_level {
                CheckLevel::Proof => spec_check_prev_header_local(
                    *workspace,
                    *author,
                    *prev_header_hash,
                ),
                CheckLevel::Claim => spec_check_header(
                    *workspace,
                    *prev_header_hash,
                    spec_opt_val(network_response),
                    CheckLevel::Claim,
                ),
            }) == Ok::<_, ValidationOutcome>(spec_deref(d)),
            Err(e) => (match check_level {
                CheckLevel::Proof => spec_check_prev_header_local(
                    *workspace,
                    *author,
                    *prev_header_hash,
                ),
                CheckLevel::Claim => spec_check_header(
                    *workspace,
                    *prev_header_hash,
                    spec_opt_val(network_response),
                    CheckLevel::Claim,
                ),
            }) == Err::<Dependency<SignedHeaderHashed>, _>(e),
        },
{
    match check_level {
        CheckLevel::Proof => {
            let meta_dep = match check_prev_header_in_metadata_all(
                author,
                prev_header_hash,
                workspace,
            ) {
                Ok(d) => d,
                Err(e) => {
                    return Err(e);
                },
            };
            let dep = match check_holding_header_inner(prev_header_hash, workspace) {
                Ok(d) => d,
                Err(e) => {
                    return Err(e);
                },
            };
            Ok(dep.confidence_min(&meta_dep))
        },
        CheckLevel::Claim => check_header_exists(*prev_header_hash, workspace, network_response),
    }
}

/// Check that the header of a store-entry operation is held: under proof
/// level both the element and the entry-to-header registration must be
/// held locally, the result graded by the weaker leg.
pub fn check_holding_store_entry_all<'a>(
    entry_hash: &EntryHash,
    header_hash: &HeaderHash,
    workspace: &'a SysValidationWorkspace,
    network_response: Option<&'a Element>,
    check_level: CheckLevel,
) -> (r: SysValidationResult<Dependency<&'a Element>>)
    ensures
        match r {
            Ok(d) => (match check_level {
                CheckLevel::Proof => spec_check_store_entry_local(
                    *workspace,
                    *entry_hash,
                    *header_hash,
                ),
                CheckLevel::Claim => spec_check_element(
                    *workspace,
                    *header_hash,
                    spec_opt_val(network_response),
                    CheckLevel::Claim,
                ),
            }) == Ok::<_, ValidationOutcome>(spec_deref(d)),
            Err(e) => (match check_level {
                CheckLevel::Proof => spec_check_store_entry_local(
                    *workspace,
                    *entry_hash,
                    *header_hash,
                ),
                CheckLevel::Claim => spec_check_element(
                    *workspace,
                    *header_hash,
                    spec_opt_val(network_response),
                    CheckLevel::Claim,
                ),
            }) == Err::<Dependency<Element>, _>(e),
        },
{
    match check_level {
        CheckLevel::Proof => {
            let meta_dep = match check_header_in_metadata_all(entry_hash, header_hash, workspace) {
                Ok(d) => d,
                Err(e) => {
                    return Err(e);
                },
            };
            let dep = match check_holding_element_inner(header_hash, workspace) {
                Ok(d) => d,
                Err(e) => {
                    return Err(e);
                },
            };
            Ok(dep.confidence_min(&meta_dep))
        },
        CheckLevel::Claim => check_element_exists(*header_hash, workspace, network_response),
    }
}

/// Check that the header of a link-add operation is held: under proof
/// level the held header must itself add a link and its full key must be
/// registered in the link metadata, the result graded by the weaker leg.
pub fn check_holding_link_add_all<'a>(
    header_hash: &HeaderHash,
    workspace: &'a SysValidationWorkspace,
    network_response: Option<&'a SignedHeaderHashed>,
    check_level: CheckLevel,
) -> (r: SysValidationResult<Dependency<&'a SignedHeaderHashed>>)
    ensures
        match r {
            Ok(d) => (match check_level {
                CheckLevel::Proof => spec_check_link_add_local(*workspace, *header_hash),
                CheckLevel::Claim => spec_check_header(
                    *workspace,
                    *header_hash,
                    spec_opt_val(network_response),
                    CheckLevel::Claim,
                ),
            }) == Ok::<_, ValidationOutcome>(spec_deref(d)),
            Err(e) => (match check_level {
                CheckLevel::Proof => spec_check_link_add_local(*workspace, *header_hash),
                CheckLevel::Claim => spec_check_header(
                    *workspace,
                    *header_hash,
                    spec_opt_val(network_response),
                    CheckLevel::Claim,
                ),
            }) == Err::<Dependency<SignedHeaderHashed>, _>(e),
        },
{
    match check_level {
        CheckLevel::Proof => {
            let dep = match check_holding_header_inner(header_hash, workspace) {
                Ok(d) => d,
                Err(e) => {
                    return Err(e);
                },
            };
            let header = dep.as_inner().header();
            match header {
                Header::LinkAdd(_) => {},
                _ => {
                    return Err(ValidationOutcome::NotCreateLink(*header_hash));
                },
            }
            let meta_dep = match check_link_in_metadata_all(header, header_hash, workspace) {
                Ok(d) => d,
                Err(e) => {
                    return Err(e);
                },
            };
            Ok(dep.confidence_min(&meta_dep))
        },
        CheckLevel::Claim => check_header_exists(*header_hash, workspace, network_response),
    }
}

/// Tier precedence: a fact held in the vault is always vouched for as
/// proof, whatever the other tiers hold, and a proof-level check on it
/// succeeds.
pub proof fn lemma_tier_precedence(
    ws: SysValidationWorkspace,
    hash: HeaderHash,
    network: Option<SignedHeaderHashed>,
)
    requires
        spec_get_header(ws.element_vault.elements@, hash) is Some,
    ensures
        spec_check_header(ws, hash, network, CheckLevel::Proof) matches Ok(d) && d is Proof,
        spec_check_header(ws, hash, network, CheckLevel::Claim) matches Ok(d) && d is Proof,
{
}

} // verus!

