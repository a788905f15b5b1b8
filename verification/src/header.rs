//! Chain headers: the variants an agent can author, and the accessors the
//! validation core reads.
//!
//! Every variant carries `author` and `timestamp`; every variant besides
//! [`Dna`] (always the first header of a chain) also carries `prev_header`.

use vstd::prelude::*;

use crate::entry::{AppEntryType, EntryType};
use crate::primitives::{Address, DnaHash, EntryHash, HeaderHash, PublicKey, SerializedBytes,
    Timestamp};

verus! {

/// The first header in a chain; declares the DNA the chain runs.
#[derive(Clone, Copy, Debug, PartialEq, Eq, Structural)]
pub struct Dna {
    pub author: PublicKey,
    pub timestamp: Timestamp,
    pub hash: DnaHash,
}

/// Adds a link from a base address to a target address.
#[derive(Clone, Debug, PartialEq, Eq)]
pub struct LinkAdd {
    pub author: PublicKey,
    pub timestamp: Timestamp,
    pub prev_header: HeaderHash,
    pub base: Address,
    pub target: Address,
    pub tag: SerializedBytes,
    pub link_type: SerializedBytes,
}

/// Reverses a previously committed [`LinkAdd`].
#[derive(Clone, Copy, Debug, PartialEq, Eq, Structural)]
pub struct LinkRemove {
    pub author: PublicKey,
    pub timestamp: Timestamp,
    pub prev_header: HeaderHash,
    /// The address of the `LinkAdd` being reversed.
    pub link_add_hash: Address,
}

/// Continues a chain that was migrated from another DNA.
#[derive(Clone, Copy, Debug, PartialEq, Eq, Structural)]
pub struct ChainOpen {
    pub author: PublicKey,
    pub timestamp: Timestamp,
    pub prev_header: HeaderHash,
    pub prev_dna_hash: DnaHash,
}

/// Ends a chain in favour of a successor DNA.
#[derive(Clone, Copy, Debug, PartialEq, Eq, Structural)]
pub struct ChainClose {
    pub author: PublicKey,
    pub timestamp: Timestamp,
    pub prev_header: HeaderHash,
    pub new_dna_hash: DnaHash,
}

/// Commits a new entry.
#[derive(Clone, Debug, PartialEq, Eq)]
pub struct EntryCreate {
    pub author: PublicKey,
    pub timestamp: Timestamp,
    pub prev_header: HeaderHash,
    pub entry_type: EntryType,
    pub entry_address: EntryHash,
}

/// Replaces an earlier entry with a new revision.
#[derive(Clone, Debug, PartialEq, Eq)]
pub struct EntryUpdate {
    pub author: PublicKey,
    pub timestamp: Timestamp,
    pub prev_header: HeaderHash,
    /// The address of the element being replaced.
    pub replaces: Address,
    pub entry_type: EntryType,
    pub entry_address: EntryHash,
}

/// Marks an earlier element as deleted.
#[derive(Clone, Copy, Debug, PartialEq, Eq, Structural)]
pub struct EntryDelete {
    pub author: PublicKey,
    pub timestamp: Timestamp,
    pub prev_header: HeaderHash,
    /// The address of the element being deleted.
    pub removes: Address,
}

/// A chain header, one of the fixed set of variants an agent can author.
#[derive(Clone, Debug, PartialEq, Eq)]
pub enum Header {
    Dna(Dna),
    LinkAdd(LinkAdd),
    LinkRemove(LinkRemove),
    ChainOpen(ChainOpen),
    ChainClose(ChainClose),
    EntryCreate(EntryCreate),
    EntryUpdate(EntryUpdate),
    EntryDelete(EntryDelete),
}

/// Multiplier of the folding step of the model content hash.
pub const HASH_PRIME: u64 = 0x100000001b3;

/// Starting accumulator of the model content hash.
pub const HASH_SEED: u64 = 0xcbf29ce484222325;

/// One folding step of the model content hash: multiply the accumulator by
/// a fixed prime, add the next word, and keep the low 64 bits.
pub open spec fn spec_mix(acc: u64, x: u64) -> u64 {
    (((acc as int) * (HASH_PRIME as int) + (x as int)) % 0x1_0000_0000_0000_0000) as u64
}

/// Fold a byte payload into the accumulator, one byte per step.
pub open spec fn spec_mix_bytes(acc: u64, s: Seq<u8>) -> u64
    decreases s.len(),
{
    if s.len() == 0 {
        acc
    } else {
        spec_mix_bytes(spec_mix(acc, s[0] as u64), s.drop_first())
    }
}

/// Fold an entry type into the accumulator.
pub open spec fn spec_mix_entry_type(acc: u64, et: EntryType) -> u64 {
    match et {
        EntryType::AgentKey => spec_mix(acc, 1),
        EntryType::App { zome_id, app_entry_type, is_public } => spec_mix(
            spec_mix_bytes(spec_mix(spec_mix(acc, 2), zome_id.0 as u64), app_entry_type.0@),
            if is_public {
                1
            } else {
                0
            },
        ),
        EntryType::CapTokenClaim => spec_mix(acc, 3),
        EntryType::CapTokenGrant => spec_mix(acc, 4),
    }
}

fn mix(acc: u64, x: u64) -> (r: u64)
    ensures
        r == spec_mix(acc, x),
{
    let wide: u128 = (acc as u128) * 0x100000001b3u128 + (x as u128);
    let r = #[verifier::truncate] (wide as u64);
    proof {
        assert(wide as u64 == (wide % 0x1_0000_0000_0000_0000) as u64) by (bit_vector);
    }
    r
}

fn mix_bytes(acc: u64, bytes: &Vec<u8>) -> (r: u64)
    ensures
        r == spec_mix_bytes(acc, bytes@),
{
    let n = bytes.len();
    let mut cur = acc;
    let mut i: usize = 0;
    proof {
        assert(bytes@.skip(0) =~= bytes@);
    }
    while i < n
        invariant
            n == bytes@.len(),
            i <= n,
            spec_mix_bytes(acc, bytes@) == spec_mix_bytes(cur, bytes@.skip(i as int)),
        decreases n - i,
    {
        proof {
            assert(bytes@.skip(i as int).drop_first() =~= bytes@.skip(i + 1));
        }
        cur = mix(cur, bytes[i] as u64);
        i = i + 1;
    }
    cur
}

fn mix_entry_type(acc: u64, et: &EntryType) -> (r: u64)
    ensures
        r == spec_mix_entry_type(acc, *et),
{
    match et {
        EntryType::AgentKey => mix(acc, 1),
        EntryType::App { zome_id, app_entry_type, is_public } => {
            let AppEntryType(name) = app_entry_type;
            mix(mix_bytes(mix(mix(acc, 2), zome_id.0 as u64), name), if *is_public {
                1
            } else {
                0
            })
        },
        EntryType::CapTokenClaim => mix(acc, 3),
        EntryType::CapTokenGrant => mix(acc, 4),
    }
}

impl Header {
    /// Whether this header describes data that is published to the shared
    /// store in the clear. Headers themselves always are; for entry
    /// creations and updates the entry type's visibility decides.
    pub open spec fn spec_is_public(&self) -> bool {
        match self {
            Header::EntryCreate(h) => h.entry_type.spec_is_public(),
            Header::EntryUpdate(h) => h.entry_type.spec_is_public(),
            _ => true,
        }
    }

    /// The agent that authored this header.
    pub open spec fn spec_author(&self) -> PublicKey {
        match self {
            Header::Dna(h) => h.author,
            Header::LinkAdd(h) => h.author,
            Header::LinkRemove(h) => h.author,
            Header::ChainOpen(h) => h.author,
            Header::ChainClose(h) => h.author,
            Header::EntryCreate(h) => h.author,
            Header::EntryUpdate(h) => h.author,
            Header::EntryDelete(h) => h.author,
        }
    }

    /// The moment the author recorded for this header.
    pub open spec fn spec_timestamp(&self) -> Timestamp {
        match self {
            Header::Dna(h) => h.timestamp,
            Header::LinkAdd(h) => h.timestamp,
            Header::LinkRemove(h) => h.timestamp,
            Header::ChainOpen(h) => h.timestamp,
            Header::ChainClose(h) => h.timestamp,
            Header::EntryCreate(h) => h.timestamp,
            Header::EntryUpdate(h) => h.timestamp,
            Header::EntryDelete(h) => h.timestamp,
        }
    }

    /// The hash of the header this one extends, absent only on [`Dna`].
    pub open spec fn spec_prev_header(&self) -> Option<HeaderHash> {
        match self {
            Header::Dna(_) => None,
            Header::LinkAdd(h) => Some(h.prev_header),
            Header::LinkRemove(h) => Some(h.prev_header),
            Header::ChainOpen(h) => Some(h.prev_header),
            Header::ChainClose(h) => Some(h.prev_header),
            Header::EntryCreate(h) => Some(h.prev_header),
            Header::EntryUpdate(h) => Some(h.prev_header),
            Header::EntryDelete(h) => Some(h.prev_header),
        }
    }

    /// The model content hash of this header: a fold over the variant tag
    /// and every field, so that any two headers differing in any field
    /// fold from different word sequences.
    pub open spec fn spec_hash(&self) -> crate::primitives::Hash {
        match self {
            Header::Dna(h) => crate::primitives::Hash(
                spec_mix(
                    spec_mix(
                        spec_mix(spec_mix(HASH_SEED, 0), h.author.0),
                        h.timestamp.0,
                    ),
                    h.hash.0,
                ),
            ),
            Header::LinkAdd(h) => crate::primitives::Hash(
                spec_mix_bytes(
                    spec_mix_bytes(
                        spec_mix(
                            spec_mix(
                                spec_mix(
                                    spec_mix(
                                        spec_mix(spec_mix(HASH_SEED, 1), h.author.0),
                                        h.timestamp.0,
                                    ),
                                    h.prev_header.0,
                                ),
                                h.base.0,
                            ),
                            h.target.0,
                        ),
                        h.tag@,
                    ),
                    h.link_type@,
                ),
            ),
            Header::LinkRemove(h) => crate::primitives::Hash(
                spec_mix(
                    spec_mix(
                        spec_mix(
                            spec_mix(spec_mix(HASH_SEED, 2), h.author.0),
                            h.timestamp.0,
                        ),
                        h.prev_header.0,
                    ),
                    h.link_add_hash.0,
                ),
            ),
            Header::ChainOpen(h) => crate::primitives::Hash(
                spec_mix(
                    spec_mix(
                        spec_mix(
                            spec_mix(spec_mix(HASH_SEED, 3), h.author.0),
                            h.timestamp.0,
                        ),
                        h.prev_header.0,
                    ),
                    h.prev_dna_hash.0,
                ),
            ),
            Header::ChainClose(h) => crate::primitives::Hash(
                spec_mix(
                    spec_mix(
                        spec_mix(
                            spec_mix(spec_mix(HASH_SEED, 4), h.author.0),
                            h.timestamp.0,
                        ),
                        h.prev_header.0,
                    ),
                    h.new_dna_hash.0,
                ),
            ),
            Header::EntryCreate(h) => crate::primitives::Hash(
                spec_mix(
                    spec_mix_entry_type(
                        spec_mix(
                            spec_mix(
                                spec_mix(spec_mix(HASH_SEED, 5), h.author.0),
                                h.timestamp.0,
                            ),
                            h.prev_header.0,
                        ),
                        h.entry_type,
                    ),
                    h.entry_address.0,
                ),
            ),
            Header::EntryUpdate(h) => crate::primitives::Hash(
                spec_mix(
                    spec_mix_entry_type(
                        spec_mix(
                            spec_mix(
                                spec_mix(
                                    spec_mix(spec_mix(HASH_SEED, 6), h.author.0),
                                    h.timestamp.0,
                                ),
                                h.prev_header.0,
                            ),
                            h.replaces.0,
                        ),
                        h.entry_type,
                    ),
                    h.entry_address.0,
                ),
            ),
            Header::EntryDelete(h) => crate::primitives::Hash(
                spec_mix(
                    spec_mix(
                        spec_mix(
                            spec_mix(spec_mix(HASH_SEED, 7), h.author.0),
                            h.timestamp.0,
                        ),
                        h.prev_header.0,
                    ),
                    h.removes.0,
                ),
            ),
        }
    }

    /// Executable form of [`Self::spec_is_public`].
    pub fn is_public(&self) -> (r: bool)
        ensures
            r == self.spec_is_public(),
    {
        match self {
            Header::EntryCreate(h) => h.entry_type.is_public(),
            Header::EntryUpdate(h) => h.entry_type.is_public(),
            _ => true,
        }
    }

    /// Executable form of [`Self::spec_author`].
    pub fn author(&self) -> (r: PublicKey)
        ensures
            r == self.spec_author(),
    {
        match self {
            Header::Dna(h) => h.author,
            Header::LinkAdd(h) => h.author,
            Header::LinkRemove(h) => h.author,
            Header::ChainOpen(h) => h.author,
            Header::ChainClose(h) => h.author,
            Header::EntryCreate(h) => h.author,
            Header::EntryUpdate(h) => h.author,
            Header::EntryDelete(h) => h.author,
        }
    }

    /// Executable form of [`Self::spec_timestamp`].
    pub fn timestamp(&self) -> (r: Timestamp)
        ensures
            r == self.spec_timestamp(),
    {
        match self {
            Header::Dna(h) => h.timestamp,
            Header::LinkAdd(h) => h.timestamp,
            Header::LinkRemove(h) => h.timestamp,
            Header::ChainOpen(h) => h.timestamp,
            Header::ChainClose(h) => h.timestamp,
            Header::EntryCreate(h) => h.timestamp,
            Header::EntryUpdate(h) => h.timestamp,
            Header::EntryDelete(h) => h.timestamp,
        }
    }

    /// Executable form of [`Self::spec_hash`].
    pub fn hash(&self) -> (r: crate::primitives::Hash)
        ensures
            r == self.spec_hash(),
    {
        match self {
            Header::Dna(h) => crate::primitives::Hash(
                mix(mix(mix(mix(HASH_SEED, 0), h.author.0), h.timestamp.0), h.hash.0),
            ),
            Header::LinkAdd(h) => {
                let acc = mix(
                    mix(
                        mix(mix(mix(HASH_SEED, 1), h.author.0), h.timestamp.0),
                        h.prev_header.0,
                    ),
                    h.base.0,
                );
                let acc = mix(acc, h.target.0);
                let acc = mix_bytes(acc, &h.tag.0);
                crate::primitives::Hash(mix_bytes(acc, &h.link_type.0))
            },
            Header::LinkRemove(h) => crate::primitives::Hash(
                mix(
                    mix(
                        mix(mix(mix(HASH_SEED, 2), h.author.0), h.timestamp.0),
                        h.prev_header.0,
                    ),
                    h.link_add_hash.0,
                ),
            ),
            Header::ChainOpen(h) => crate::primitives::Hash(
                mix(
                    mix(
                        mix(mix(mix(HASH_SEED, 3), h.author.0), h.timestamp.0),
                        h.prev_header.0,
                    ),
                    h.prev_dna_hash.0,
                ),
            ),
            Header::ChainClose(h) => crate::primitives::Hash(
                mix(
                    mix(
                        mix(mix(mix(HASH_SEED, 4), h.author.0), h.timestamp.0),
                        h.prev_header.0,
                    ),
                    h.new_dna_hash.0,
                ),
            ),
            Header::EntryCreate(h) => {
                let acc = mix(
                    mix(mix(mix(HASH_SEED, 5), h.author.0), h.timestamp.0),
                    h.prev_header.0,
                );
                let acc = mix_entry_type(acc, &h.entry_type);
                crate::primitives::Hash(mix(acc, h.entry_address.0))
            },
            Header::EntryUpdate(h) => {
                let acc = mix(
                    mix(
                        mix(mix(mix(HASH_SEED, 6), h.author.0), h.timestamp.0),
                        h.prev_header.0,
                    ),
                    h.replaces.0,
                );
                let acc = mix_entry_type(acc, &h.entry_type);
                crate::primitives::Hash(mix(acc, h.entry_address.0))
            },
            Header::EntryDelete(h) => crate::primitives::Hash(
                mix(
                    mix(
                        mix(mix(mix(HASH_SEED, 7), h.author.0), h.timestamp.0),
                        h.prev_header.0,
                    ),
                    h.removes.0,
                ),
            ),
        }
    }

    /// Executable form of [`Self::spec_prev_header`].
    pub fn prev_header(&self) -> (r: Option<HeaderHash>)
        ensures
            r == self.spec_prev_header(),
    {
        match self {
            Header::Dna(_) => None,
            Header::LinkAdd(h) => Some(h.prev_header),
            Header::LinkRemove(h) => Some(h.prev_header),
            Header::ChainOpen(h) => Some(h.prev_header),
            Header::ChainClose(h) => Some(h.prev_header),
            Header::EntryCreate(h) => Some(h.prev_header),
            Header::EntryUpdate(h) => Some(h.prev_header),
            Header::EntryDelete(h) => Some(h.prev_header),
        }
    }
}

} // verus!
