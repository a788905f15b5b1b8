//! The composite hash type: a fact identifier that may name either an
//! entry or a header, as the resolver's errors do.

use vstd::prelude::*;

use crate::primitives::{EntryHash, HeaderHash};

verus! {

/// Which kind of shared-store data a composite hash names.
#[derive(Clone, Copy, Debug, PartialEq, Eq, Structural)]
pub enum AnyDht {
    /// The hash of an entry.
    Entry,
    /// The hash of a header.
    Header,
}

/// The multihash-style prefix of an entry hash.
pub open spec fn spec_entry_prefix() -> Seq<u8> {
    seq![0x84u8, 0x21u8, 0x24u8]
}

/// The multihash-style prefix of a header hash.
pub open spec fn spec_header_prefix() -> Seq<u8> {
    seq![0x84u8, 0x29u8, 0x24u8]
}

impl AnyDht {
    /// The serialization prefix that distinguishes the two hash kinds.
    pub fn get_prefix(self) -> (r: [u8; 3])
        ensures
            self is Entry ==> r@ == spec_entry_prefix(),
            self is Header ==> r@ == spec_header_prefix(),
    {
        match self {
            AnyDht::Entry => {
                let r: [u8; 3] = [0x84, 0x21, 0x24];
                proof {
                    assert(r@ =~= spec_entry_prefix());
                }
                r
            },
            AnyDht::Header => {
                let r: [u8; 3] = [0x84, 0x29, 0x24];
                proof {
                    assert(r@ =~= spec_header_prefix());
                }
                r
            },
        }
    }

    /// The name of the composite hash kind.
    pub fn hash_name(self) -> (r: &'static str)
        ensures
            r@ == "AnyDhtHash"@,
    {
        "AnyDhtHash"
    }
}

impl Default for AnyDht {
    /// The historical default of the composite kind.
    fn default() -> (r: Self)
        ensures
            r == AnyDht::Header,
    {
        AnyDht::Header
    }
}

/// A fact identifier: the hash of either an entry or a header.
#[derive(Clone, Copy, Debug, PartialEq, Eq, Structural)]
pub enum AnyDhtHash {
    Entry(EntryHash),
    Header(HeaderHash),
}

impl AnyDhtHash {
    /// Which kind of data this identifier names.
    pub fn hash_type(&self) -> (r: AnyDht)
        ensures
            r == (match self {
                AnyDhtHash::Entry(_) => AnyDht::Entry,
                AnyDhtHash::Header(_) => AnyDht::Header,
            }),
    {
        match self {
            AnyDhtHash::Entry(_) => AnyDht::Entry,
            AnyDhtHash::Header(_) => AnyDht::Header,
        }
    }
}

} // verus!
