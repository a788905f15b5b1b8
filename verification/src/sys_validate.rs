//! Result types of the dependency resolver: confidence-graded facts, the
//! caller's check-level policy, and the resolver's typed failures.

use vstd::prelude::*;

use crate::composite::AnyDhtHash;
use crate::primitives::HeaderHash;

verus! {

/// Per-lookup policy: how strong the evidence for a dependency must be.
#[derive(Clone, Copy, Debug, PartialEq, Eq, Structural)]
pub enum CheckLevel {
    /// Only authoritative local evidence is acceptable.
    Proof,
    /// Network-asserted evidence is acceptable as a fallback.
    Claim,
}

/// A fact the resolver vouches for, graded by the strength of the
/// evidence behind it.
#[derive(Clone, Copy, Debug, PartialEq, Eq)]
pub enum Dependency<T> {
    /// Found in an authoritative local store; ground truth.
    Proof(T),
    /// Asserted by a network peer, unverified by this node.
    Claim(T),
    /// Held locally but not yet itself validated.
    PendingValidation(T),
}

/// The resolver's typed failures.
#[derive(Clone, Copy, Debug, PartialEq, Eq, Structural)]
pub enum ValidationOutcome {
    /// Local evidence exhausted at the requested confidence level;
    /// recoverable, the caller requeues the dependent operation.
    NotHoldingDep(AnyDhtHash),
    /// Network-wide absence confirmed at [`CheckLevel::Claim`]; terminal,
    /// the caller rejects the dependent operation.
    DepMissingFromDht(AnyDhtHash),
    /// A link metadata check was asked of a header that does not add a
    /// link.
    NotCreateLink(HeaderHash),
}

/// The result type of every resolver check.
pub type SysValidationResult<T> = Result<T, ValidationOutcome>;

impl<T> Dependency<T> {
    /// The strength of the evidence, ordered: the larger, the stronger.
    pub open spec fn spec_rank(&self) -> int {
        match self {
            Dependency::Proof(_) => 2,
            Dependency::Claim(_) => 1,
            Dependency::PendingValidation(_) => 0,
        }
    }

    /// The fact the evidence is about.
    pub open spec fn spec_payload(&self) -> T {
        match self {
            Dependency::Proof(t) => *t,
            Dependency::Claim(t) => *t,
            Dependency::PendingValidation(t) => *t,
        }
    }

    /// Executable form of [`Self::spec_rank`].
    pub fn rank(&self) -> (r: u8)
        ensures
            r as int == self.spec_rank(),
    {
        match self {
            Dependency::Proof(_) => 2,
            Dependency::Claim(_) => 1,
            Dependency::PendingValidation(_) => 0,
        }
    }

    /// Borrow the fact, whatever its grade.
    pub fn as_inner(&self) -> (r: &T)
        ensures
            *r == self.spec_payload(),
    {
        match self {
            Dependency::Proof(t) => t,
            Dependency::Claim(t) => t,
            Dependency::PendingValidation(t) => t,
        }
    }

    /// Take the fact, whatever its grade.
    pub fn into_inner(self) -> (r: T)
        ensures
            r == self.spec_payload(),
    {
        match self {
            Dependency::Proof(t) => t,
            Dependency::Claim(t) => t,
            Dependency::PendingValidation(t) => t,
        }
    }

    /// Combine two independently obtained graded facts: keep this fact's
    /// payload, but grade it by the weaker of the two ranks, so that a
    /// composite dependency is never reported stronger than its weakest
    /// leg.
    pub fn confidence_min<B>(self, other: &Dependency<B>) -> (r: Dependency<T>)
        ensures
            r == spec_confidence_min(self, *other),
    {
        let self_rank = self.rank();
        let other_rank = other.rank();
        let rank = if self_rank <= other_rank {
            self_rank
        } else {
            other_rank
        };
        let payload = self.into_inner();
        if rank == 2 {
            Dependency::Proof(payload)
        } else if rank == 1 {
            Dependency::Claim(payload)
        } else {
            Dependency::PendingValidation(payload)
        }
    }
}

/// The combinator behind [`Dependency::confidence_min`]: the first
/// operand's payload under the weaker of the two ranks.
pub open spec fn spec_confidence_min<T, B>(a: Dependency<T>, b: Dependency<B>) -> Dependency<T> {
    let rank = if a.spec_rank() <= b.spec_rank() {
        a.spec_rank()
    } else {
        b.spec_rank()
    };
    if rank == 2 {
        Dependency::Proof(a.spec_payload())
    } else if rank == 1 {
        Dependency::Claim(a.spec_payload())
    } else {
        Dependency::PendingValidation(a.spec_payload())
    }
}

/// Confidence downgrade: combining evidence never reports more confidence
/// than the weaker leg. A proof downgraded by a claim is a claim; a proof
/// or a claim downgraded by pending validation is pending validation.
pub proof fn lemma_confidence_downgrade<A, B>(x: A, y: B)
    ensures
        spec_confidence_min(Dependency::Proof(x), Dependency::Claim(y)) == Dependency::<A>::Claim(
            x,
        ),
        spec_confidence_min(Dependency::Proof(x), Dependency::PendingValidation(y))
            == Dependency::<A>::PendingValidation(x),
        spec_confidence_min(Dependency::Claim(x), Dependency::PendingValidation(y))
            == Dependency::<A>::PendingValidation(x),
{
}

} // verus!
