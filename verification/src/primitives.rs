//! Primitive identity types shared by the whole core.
//!
//! Every content address the core handles (header hashes, entry hashes,
//! agent keys, ...) is modelled as a plain 64-bit identity: the resolver
//! and the pipeline only ever compare these identities for equality, so
//! the concrete digest bytes an outside hashing library would produce are
//! irrelevant to the logic proved here.

use vstd::prelude::*;

verus! {

/// An address that may refer to a header, an entry or an agent key.
#[derive(Clone, Copy, Debug, PartialEq, Eq, Structural)]
pub struct Address(pub u64);

/// A detached signature over a header.
#[derive(Clone, Copy, Debug, PartialEq, Eq, Structural)]
pub struct Signature(pub u64);

/// An agent's public signing key.
#[derive(Clone, Copy, Debug, PartialEq, Eq, Structural)]
pub struct PublicKey(pub u64);

/// A moment in time, as recorded by the authoring agent.
#[derive(Clone, Copy, Debug, PartialEq, Eq, Structural)]
pub struct Timestamp(pub u64);

/// The hash identity of a DNA.
#[derive(Clone, Copy, Debug, PartialEq, Eq, Structural)]
pub struct DnaHash(pub u64);

/// The hash identity of a chain header.
#[derive(Clone, Copy, Debug, PartialEq, Eq, Structural)]
pub struct HeaderHash(pub u64);

/// The hash identity of an entry.
#[derive(Clone, Copy, Debug, PartialEq, Eq, Structural)]
pub struct EntryHash(pub u64);

/// A generic content hash.
#[derive(Clone, Copy, Debug, PartialEq, Eq, Structural)]
pub struct Hash(pub u64);

/// The index of a zome within a DNA.
#[derive(Clone, Copy, Debug, PartialEq, Eq, Structural)]
pub struct ZomeId(pub u8);

/// An opaque serialized payload, such as a link tag.
#[derive(Clone, Debug, PartialEq, Eq)]
pub struct SerializedBytes(pub Vec<u8>);

/// A capability claim held by an agent.
#[derive(Clone, Copy, Debug, PartialEq, Eq, Structural)]
pub struct CapTokenClaim;

/// A capability grant committed by an agent.
#[derive(Clone, Copy, Debug, PartialEq, Eq, Structural)]
pub struct CapTokenGrant;

impl View for SerializedBytes {
    type V = Seq<u8>;

    open spec fn view(&self) -> Seq<u8> {
        self.0@
    }
}

impl SerializedBytes {
    /// Byte-for-byte equality of two payloads.
    pub fn bytes_eq(&self, other: &SerializedBytes) -> (r: bool)
        ensures
            r == (self@ == other@),
    {
        if self.0.len() != other.0.len() {
            return false;
        }
        let n = self.0.len();
        let mut i: usize = 0;
        while i < n
            invariant
                n == self.0.len(),
                n == other.0.len(),
                i <= n,
                forall|j: int| 0 <= j < i ==> self.0@[j] == other.0@[j],
            decreases n - i,
        {
            if self.0[i] != other.0[i] {
                return false;
            }
            i = i + 1;
        }
        proof {
            assert(self@ =~= other@);
        }
        true
    }
}

} // verus!
