//! The tiered dependency resolver: tier precedence, confidence
//! downgrade, and the network-fallback scenarios.

use dht_pipeline::composite::AnyDhtHash;
use dht_pipeline::element::{Element, SignedHeaderHashed};
use dht_pipeline::entry::Entry;
use dht_pipeline::header::{ChainOpen, Header, LinkAdd};
use dht_pipeline::present::{check_entry_exists, check_header_exists, check_holding_element_all,
    check_holding_entry_all, check_holding_header_all, check_holding_link_add_all,
    check_holding_prev_header_all, check_holding_store_entry_all};
use dht_pipeline::primitives::{Address, DnaHash, EntryHash, HeaderHash, PublicKey,
    SerializedBytes, Signature, Timestamp};
use dht_pipeline::state::{LinkMetaKey, SysValidationWorkspace};
use dht_pipeline::sys_validate::{CheckLevel, Dependency, ValidationOutcome};

fn plain_header(author: u64) -> Header {
    Header::ChainOpen(ChainOpen {
        author: PublicKey(author),
        timestamp: Timestamp(100),
        prev_header: HeaderHash(0),
        prev_dna_hash: DnaHash(1),
    })
}

fn signed_header(hash: u64, author: u64) -> SignedHeaderHashed {
    SignedHeaderHashed {
        signature: Signature(hash),
        header: plain_header(author),
        header_hash: HeaderHash(hash),
    }
}

fn element(hash: u64, author: u64, with_entry: bool) -> Element {
    Element {
        signed_header: signed_header(hash, author),
        entry: if with_entry { Some(Entry::AgentKey(PublicKey(author))) } else { None },
    }
}

fn link_add_header(base: u64, tag: Vec<u8>) -> Header {
    Header::LinkAdd(LinkAdd {
        author: PublicKey(7),
        timestamp: Timestamp(100),
        prev_header: HeaderHash(0),
        base: Address(base),
        target: Address(base + 1),
        tag: SerializedBytes(tag),
        link_type: SerializedBytes(Vec::new()),
    })
}

fn link_add_element(hash: u64, base: u64, tag: Vec<u8>) -> Element {
    Element {
        signed_header: SignedHeaderHashed {
            signature: Signature(hash),
            header: link_add_header(base, tag),
            header_hash: HeaderHash(hash),
        },
        entry: None,
    }
}

#[test]
fn scenario_header_in_vault_is_proof() {
    let mut ws = SysValidationWorkspace::new();
    ws.element_vault.put(element(1, 10, true));
    let expected = signed_header(1, 10);
    let r = check_holding_header_all(&HeaderHash(1), &ws, None, CheckLevel::Proof);
    match r {
        Ok(Dependency::Proof(sh)) => assert_eq!(*sh, expected),
        other => panic!("expected a proof, got {:?}", other),
    }
}

#[test]
fn scenario_header_only_pending_fails_proof_level() {
    let mut ws = SysValidationWorkspace::new();
    ws.element_pending.put(element(1, 10, true));
    let r = check_holding_header_all(&HeaderHash(1), &ws, None, CheckLevel::Proof);
    match r {
        Ok(Dependency::PendingValidation(sh)) => assert_eq!(*sh, signed_header(1, 10)),
        other => panic!("expected pending validation, got {:?}", other),
    }
    // A header held nowhere at all fails with the recoverable error.
    let r = check_holding_header_all(&HeaderHash(2), &ws, None, CheckLevel::Proof);
    assert_eq!(r, Err(ValidationOutcome::NotHoldingDep(AnyDhtHash::Header(HeaderHash(2)))));
}

#[test]
fn tier_precedence_vault_beats_pending() {
    let mut ws = SysValidationWorkspace::new();
    // The same hash in the vault and in pending limbo, with different
    // payloads so the winner is visible.
    ws.element_vault.put(element(1, 10, true));
    ws.element_pending.put(element(1, 99, true));
    let r = check_holding_header_all(&HeaderHash(1), &ws, None, CheckLevel::Proof);
    match r {
        Ok(Dependency::Proof(sh)) => assert_eq!(*sh, signed_header(1, 10)),
        other => panic!("expected the vault's proof, got {:?}", other),
    }
}

#[test]
fn judged_tier_is_authoritative() {
    let mut ws = SysValidationWorkspace::new();
    ws.element_judged.put(element(3, 11, true));
    let r = check_holding_header_all(&HeaderHash(3), &ws, None, CheckLevel::Proof);
    match r {
        Ok(Dependency::Proof(sh)) => assert_eq!(*sh, signed_header(3, 11)),
        other => panic!("expected a proof from judged, got {:?}", other),
    }
}

#[test]
fn scenario_network_returns_header_as_claim() {
    let ws = SysValidationWorkspace::new();
    let fetched = signed_header(9, 12);
    let r = check_holding_header_all(&HeaderHash(9), &ws, Some(&fetched), CheckLevel::Claim);
    match r {
        Ok(Dependency::Claim(sh)) => assert_eq!(*sh, fetched),
        other => panic!("expected a claim, got {:?}", other),
    }
}

#[test]
fn scenario_network_missing_is_terminal() {
    let ws = SysValidationWorkspace::new();
    let r = check_holding_header_all(&HeaderHash(9), &ws, None, CheckLevel::Claim);
    assert_eq!(r, Err(ValidationOutcome::DepMissingFromDht(AnyDhtHash::Header(HeaderHash(9)))));
}

#[test]
fn claim_level_still_prefers_local_evidence() {
    let mut ws = SysValidationWorkspace::new();
    ws.element_pending.put(element(4, 13, true));
    let fetched = signed_header(4, 99);
    let r = check_holding_header_all(&HeaderHash(4), &ws, Some(&fetched), CheckLevel::Claim);
    match r {
        Ok(Dependency::PendingValidation(sh)) => assert_eq!(*sh, signed_header(4, 13)),
        other => panic!("expected local pending evidence, got {:?}", other),
    }
}

#[test]
fn check_header_exists_drops_to_network() {
    let ws = SysValidationWorkspace::new();
    let fetched = signed_header(5, 14);
    match check_header_exists(HeaderHash(5), &ws, Some(&fetched)) {
        Ok(Dependency::Claim(sh)) => assert_eq!(*sh, fetched),
        other => panic!("expected a claim, got {:?}", other),
    }
}

#[test]
fn element_requires_its_entry() {
    let mut ws = SysValidationWorkspace::new();
    // Held, but without its entry: not good enough for an element check.
    ws.element_vault.put(element(6, 15, false));
    let r = check_holding_element_all(&HeaderHash(6), &ws, None, CheckLevel::Proof);
    assert_eq!(r, Err(ValidationOutcome::NotHoldingDep(AnyDhtHash::Header(HeaderHash(6)))));
    let mut ws = SysValidationWorkspace::new();
    ws.element_vault.put(element(6, 15, true));
    match check_holding_element_all(&HeaderHash(6), &ws, None, CheckLevel::Proof) {
        Ok(Dependency::Proof(e)) => assert_eq!(*e, element(6, 15, true)),
        other => panic!("expected a proof, got {:?}", other),
    }
}

#[test]
fn entry_reached_through_metadata_index() {
    let mut ws = SysValidationWorkspace::new();
    ws.meta_vault.register_header(EntryHash(30), HeaderHash(7));
    ws.element_vault.put(element(7, 16, true));
    match check_holding_entry_all(&EntryHash(30), &ws, None, CheckLevel::Proof) {
        Ok(Dependency::Proof(e)) => assert_eq!(*e, element(7, 16, true)),
        other => panic!("expected a proof, got {:?}", other),
    }
    // The index alone, without the element, is not holding the entry.
    let mut ws = SysValidationWorkspace::new();
    ws.meta_vault.register_header(EntryHash(31), HeaderHash(8));
    let r = check_holding_entry_all(&EntryHash(31), &ws, None, CheckLevel::Proof);
    assert_eq!(r, Err(ValidationOutcome::NotHoldingDep(AnyDhtHash::Entry(EntryHash(31)))));
}

#[test]
fn entry_exists_falls_back_to_network() {
    let ws = SysValidationWorkspace::new();
    let fetched = element(8, 17, true);
    match check_entry_exists(EntryHash(32), &ws, Some(&fetched)) {
        Ok(Dependency::Claim(e)) => assert_eq!(*e, fetched),
        other => panic!("expected a claim, got {:?}", other),
    }
    let r = check_entry_exists(EntryHash(32), &ws, None);
    assert_eq!(r, Err(ValidationOutcome::DepMissingFromDht(AnyDhtHash::Entry(EntryHash(32)))));
}

#[test]
fn prev_header_composite_takes_weaker_leg() {
    let mut ws = SysValidationWorkspace::new();
    // The activity registration is authoritative, the header itself is
    // only pending: the composite is pending validation.
    ws.meta_vault.register_activity(PublicKey(10), HeaderHash(1));
    ws.element_pending.put(element(1, 10, true));
    let r = check_holding_prev_header_all(
        &PublicKey(10),
        &HeaderHash(1),
        &ws,
        None,
        CheckLevel::Proof,
    );
    match r {
        Ok(Dependency::PendingValidation(sh)) => assert_eq!(*sh, signed_header(1, 10)),
        other => panic!("expected pending validation, got {:?}", other),
    }
}

#[test]
fn prev_header_missing_activity_is_not_held() {
    let mut ws = SysValidationWorkspace::new();
    ws.element_vault.put(element(1, 10, true));
    let r = check_holding_prev_header_all(
        &PublicKey(10),
        &HeaderHash(1),
        &ws,
        None,
        CheckLevel::Proof,
    );
    assert_eq!(r, Err(ValidationOutcome::NotHoldingDep(AnyDhtHash::Header(HeaderHash(1)))));
}

#[test]
fn store_entry_composite_takes_weaker_leg() {
    let mut ws = SysValidationWorkspace::new();
    ws.meta_pending.register_header(EntryHash(40), HeaderHash(2));
    ws.element_vault.put(element(2, 11, true));
    let r = check_holding_store_entry_all(
        &EntryHash(40),
        &HeaderHash(2),
        &ws,
        None,
        CheckLevel::Proof,
    );
    match r {
        Ok(Dependency::PendingValidation(e)) => assert_eq!(*e, element(2, 11, true)),
        other => panic!("expected pending validation, got {:?}", other),
    }
}

#[test]
fn scenario_link_add_proof_with_pending_metadata() {
    let mut ws = SysValidationWorkspace::new();
    // The link-add header resolves as proof from the vault, but its
    // metadata cross-reference is only pending: the composite downgrades.
    ws.element_vault.put(link_add_element(50, 5, vec![1, 2, 3]));
    ws.meta_pending.add_link(LinkMetaKey {
        base: Address(5),
        tag: SerializedBytes(vec![1, 2, 3]),
        link_add_hash: HeaderHash(50),
    });
    let r = check_holding_link_add_all(&HeaderHash(50), &ws, None, CheckLevel::Proof);
    match r {
        Ok(Dependency::PendingValidation(sh)) => {
            assert_eq!(sh.header_hash, HeaderHash(50));
        },
        other => panic!("expected pending validation, got {:?}", other),
    }
}

#[test]
fn link_add_fully_held_is_proof() {
    let mut ws = SysValidationWorkspace::new();
    ws.element_vault.put(link_add_element(50, 5, vec![1, 2, 3]));
    ws.meta_vault.add_link(LinkMetaKey {
        base: Address(5),
        tag: SerializedBytes(vec![1, 2, 3]),
        link_add_hash: HeaderHash(50),
    });
    let r = check_holding_link_add_all(&HeaderHash(50), &ws, None, CheckLevel::Proof);
    assert!(matches!(r, Ok(Dependency::Proof(_))));
}

#[test]
fn link_add_key_must_match_exactly() {
    let mut ws = SysValidationWorkspace::new();
    ws.element_vault.put(link_add_element(50, 5, vec![1, 2, 3]));
    // Registered under a different tag: an exact-key miss is not held.
    ws.meta_vault.add_link(LinkMetaKey {
        base: Address(5),
        tag: SerializedBytes(vec![9]),
        link_add_hash: HeaderHash(50),
    });
    let r = check_holding_link_add_all(&HeaderHash(50), &ws, None, CheckLevel::Proof);
    assert_eq!(r, Err(ValidationOutcome::NotHoldingDep(AnyDhtHash::Header(HeaderHash(50)))));
}

#[test]
fn link_check_on_non_link_header_is_not_create_link() {
    let mut ws = SysValidationWorkspace::new();
    ws.element_vault.put(element(60, 20, true));
    let r = check_holding_link_add_all(&HeaderHash(60), &ws, None, CheckLevel::Proof);
    assert_eq!(r, Err(ValidationOutcome::NotCreateLink(HeaderHash(60))));
}

#[test]
fn confidence_min_takes_weaker_rank_and_first_payload() {
    let a: Dependency<u64> = Dependency::Proof(1);
    let b: Dependency<u64> = Dependency::Claim(2);
    assert_eq!(a.confidence_min(&b), Dependency::Claim(1));
    let a: Dependency<u64> = Dependency::Proof(1);
    let b: Dependency<u64> = Dependency::PendingValidation(2);
    assert_eq!(a.confidence_min(&b), Dependency::PendingValidation(1));
    let a: Dependency<u64> = Dependency::Claim(1);
    let b: Dependency<u64> = Dependency::PendingValidation(2);
    assert_eq!(a.confidence_min(&b), Dependency::PendingValidation(1));
    // The combinator never upgrades either.
    let a: Dependency<u64> = Dependency::PendingValidation(1);
    let b: Dependency<u64> = Dependency::Proof(2);
    assert_eq!(a.confidence_min(&b), Dependency::PendingValidation(1));
}
