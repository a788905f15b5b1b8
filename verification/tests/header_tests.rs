//! The header and entry data model: accessors, visibility, the model
//! content hash, and the composite hash kinds.

use dht_pipeline::composite::{AnyDht, AnyDhtHash};
use dht_pipeline::element::Element;
use dht_pipeline::entry::{AppEntryType, Entry, EntryType};
use dht_pipeline::header::{ChainClose, Dna, EntryCreate, EntryDelete, Header, LinkAdd};
use dht_pipeline::primitives::{Address, DnaHash, EntryHash, HeaderHash, PublicKey,
    SerializedBytes, Signature, Timestamp, ZomeId};

fn dna_header() -> Header {
    Header::Dna(Dna { author: PublicKey(1), timestamp: Timestamp(5), hash: DnaHash(2) })
}

fn entry_create(is_public: bool) -> Header {
    Header::EntryCreate(EntryCreate {
        author: PublicKey(1),
        timestamp: Timestamp(5),
        prev_header: HeaderHash(3),
        entry_type: EntryType::App {
            zome_id: ZomeId(0),
            app_entry_type: AppEntryType(vec![1, 2]),
            is_public,
        },
        entry_address: EntryHash(4),
    })
}

#[test]
fn prev_header_absent_only_on_dna() {
    assert_eq!(dna_header().prev_header(), None);
    assert_eq!(entry_create(true).prev_header(), Some(HeaderHash(3)));
    let close = Header::ChainClose(ChainClose {
        author: PublicKey(1),
        timestamp: Timestamp(5),
        prev_header: HeaderHash(9),
        new_dna_hash: DnaHash(2),
    });
    assert_eq!(close.prev_header(), Some(HeaderHash(9)));
}

#[test]
fn author_and_timestamp_of_every_variant() {
    let delete = Header::EntryDelete(EntryDelete {
        author: PublicKey(21),
        timestamp: Timestamp(55),
        prev_header: HeaderHash(3),
        removes: Address(4),
    });
    assert_eq!(delete.author(), PublicKey(21));
    assert_eq!(delete.timestamp(), Timestamp(55));
    assert_eq!(dna_header().author(), PublicKey(1));
    assert_eq!(dna_header().timestamp(), Timestamp(5));
}

#[test]
fn visibility_follows_the_entry_type() {
    assert!(entry_create(true).is_public());
    assert!(!entry_create(false).is_public());
    // Headers that carry no entry are themselves public.
    assert!(dna_header().is_public());
    // Capability tokens never leave the authoring node.
    let grant = Header::EntryCreate(EntryCreate {
        author: PublicKey(1),
        timestamp: Timestamp(5),
        prev_header: HeaderHash(3),
        entry_type: EntryType::CapTokenGrant,
        entry_address: EntryHash(4),
    });
    assert!(!grant.is_public());
    assert!(EntryType::AgentKey.is_public());
    assert!(!EntryType::CapTokenClaim.is_public());
}

#[test]
fn content_hash_is_deterministic_and_field_sensitive() {
    let h1 = entry_create(true);
    let h2 = entry_create(true);
    assert_eq!(h1.hash(), h2.hash());
    let other_author = Header::Dna(Dna {
        author: PublicKey(2),
        timestamp: Timestamp(5),
        hash: DnaHash(2),
    });
    assert_ne!(dna_header().hash(), other_author.hash());
    assert_ne!(entry_create(true).hash(), entry_create(false).hash());
    let tagged = |tag: Vec<u8>| {
        Header::LinkAdd(LinkAdd {
            author: PublicKey(1),
            timestamp: Timestamp(5),
            prev_header: HeaderHash(3),
            base: Address(4),
            target: Address(5),
            tag: SerializedBytes(tag),
            link_type: SerializedBytes(vec![]),
        })
    };
    assert_eq!(tagged(vec![1, 2]).hash(), tagged(vec![1, 2]).hash());
    assert_ne!(tagged(vec![1, 2]).hash(), tagged(vec![2, 1]).hash());
}

#[test]
fn composite_hash_kinds() {
    assert_eq!(AnyDht::Entry.get_prefix(), [0x84, 0x21, 0x24]);
    assert_eq!(AnyDht::Header.get_prefix(), [0x84, 0x29, 0x24]);
    assert_eq!(AnyDht::Entry.hash_name(), "AnyDhtHash");
    assert_eq!(AnyDht::default(), AnyDht::Header);
    assert_eq!(AnyDhtHash::Entry(EntryHash(1)).hash_type(), AnyDht::Entry);
    assert_eq!(AnyDhtHash::Header(HeaderHash(1)).hash_type(), AnyDht::Header);
}

#[test]
fn serialized_bytes_equality_is_byte_for_byte() {
    let a = SerializedBytes(vec![1, 2, 3]);
    let b = SerializedBytes(vec![1, 2, 3]);
    let c = SerializedBytes(vec![1, 2]);
    let d = SerializedBytes(vec![1, 2, 4]);
    assert!(a.bytes_eq(&b));
    assert!(!a.bytes_eq(&c));
    assert!(!a.bytes_eq(&d));
    assert!(SerializedBytes(vec![]).bytes_eq(&SerializedBytes(vec![])));
    assert_eq!(a.clone(), a);
}

#[test]
fn element_accessors() {
    let el = Element {
        signed_header: dht_pipeline::element::SignedHeaderHashed {
            signature: Signature(8),
            header: dna_header(),
            header_hash: HeaderHash(77),
        },
        entry: Some(Entry::AgentKey(PublicKey(1))),
    };
    assert_eq!(el.header_address(), HeaderHash(77));
    assert_eq!(*el.header(), dna_header());
    assert_eq!(*el.entry(), Some(Entry::AgentKey(PublicKey(1))));
}
