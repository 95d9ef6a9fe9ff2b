//! Nullifiers and the key-versus-commitment duality of spending authority.

use vstd::prelude::*;

use crate::field::{poseidon4, random_field_element, FieldElement, Limbs};
use crate::field::poseidon4_of;

verus! {

/// Domain tag separating the nullifier-key commitment from the other
/// pseudo-random derivations.
pub const NK_COMMIT_TAG: u64 = 3;

/// Spending authority for a note: either the secret nullifier key itself, or
/// only a commitment to it. Operations that require the secret key fail
/// explicitly on the commitment case; a commitment is never treated as a key.
#[derive(Clone, Copy, Debug, PartialEq, Eq, Structural)]
pub enum NullifierKeyContainer {
    /// The nullifier key is known: the note can be spent.
    Key(FieldElement),
    /// Only a commitment to the key is known: enough to receive, not to spend.
    Commitment(FieldElement),
}

/// What the commitment to a nullifier key is.
pub open spec fn nk_commitment_of(k: Limbs) -> Limbs {
    poseidon4_of(
        (NK_COMMIT_TAG, 0, 0, 0),
        k,
        FieldElement::spec_from_u64(0)@,
        FieldElement::spec_from_u64(0)@,
    )
}

impl NullifierKeyContainer {
    /// The field element a note commits to for this container: the key's
    /// commitment when the key is known, else the commitment itself.
    pub open spec fn spec_commitment_value(&self) -> Limbs {
        match *self {
            NullifierKeyContainer::Key(k) => nk_commitment_of(k@),
            NullifierKeyContainer::Commitment(c) => c@,
        }
    }

    /// Whether the secret key is known.
    pub open spec fn is_key(&self) -> bool {
        matches!(*self, NullifierKeyContainer::Key(_))
    }

    /// The secret key, if it is known.
    pub fn get_nk(&self) -> (r: Option<FieldElement>)
        ensures
            r is Some <==> self.is_key(),
            r is Some ==> *self == NullifierKeyContainer::Key(r.unwrap()),
    {
        match self {
            NullifierKeyContainer::Key(k) => Some(*k),
            NullifierKeyContainer::Commitment(_) => None,
        }
    }

    /// The field element a note commits to for this container.
    pub fn commitment_value(&self) -> (r: FieldElement)
        ensures
            r@ == self.spec_commitment_value(),
    {
        match self {
            NullifierKeyContainer::Key(k) => {
                let tag = FieldElement::from_u64(NK_COMMIT_TAG);
                let z = FieldElement::zero();
                poseidon4(&tag, k, &z, &z)
            },
            NullifierKeyContainer::Commitment(c) => *c,
        }
    }

    /// This container with the secret key replaced by its commitment.
    pub fn to_commitment(&self) -> (r: NullifierKeyContainer)
        ensures
            r matches NullifierKeyContainer::Commitment(c) && c@ == self.spec_commitment_value(),
    {
        let v = self.commitment_value();
        NullifierKeyContainer::Commitment(v)
    }

    /// A container holding a fresh random key.
    pub fn random_key() -> (r: NullifierKeyContainer)
        ensures
            r.is_key(),
    {
        NullifierKeyContainer::Key(random_field_element())
    }

    /// A container holding a fresh random commitment.
    pub fn random_commitment() -> (r: NullifierKeyContainer)
        ensures
            !r.is_key(),
    {
        NullifierKeyContainer::Commitment(random_field_element())
    }
}

/// The one-time value published when a note is spent. Also used as the
/// `rho` nullifier-chaining field of the note that replaces it.
#[derive(Clone, Copy, Debug, PartialEq, Eq, Structural, Hash)]
pub struct Nullifier(pub FieldElement);

impl View for Nullifier {
    type V = Limbs;

    open spec fn view(&self) -> Limbs {
        self.0@
    }
}

/// What the nullifier of a note is: a pseudo-random function of the secret
/// nullifier key, the note's `rho` and `psi`, and its commitment.
pub open spec fn nullifier_of(nk: Limbs, rho: Limbs, psi: Limbs, cm: Limbs) -> Limbs {
    poseidon4_of(nk, rho, psi, cm)
}

impl Nullifier {
    /// The nullifier's field element.
    pub fn inner(&self) -> (r: FieldElement)
        ensures
            r@ == self@,
    {
        self.0
    }

    /// A nullifier from a given field element (used for the fresh random
    /// `rho` of the first note in a chain).
    pub fn from_field(v: FieldElement) -> (r: Nullifier)
        ensures
            r@ == v@,
    {
        Nullifier(v)
    }

    /// Derives the nullifier of a spent note. Fails exactly when only a key
    /// commitment, not the key itself, is available: spending requires
    /// knowledge of the key.
    pub fn derive(
        nk: &NullifierKeyContainer,
        rho: &FieldElement,
        psi: &FieldElement,
        cm: &FieldElement,
    ) -> (r: Option<Nullifier>)
        ensures
            r is Some <==> nk.is_key(),
            r matches Some(nf) ==> nk matches NullifierKeyContainer::Key(k) && nf@
                == nullifier_of(k@, rho@, psi@, cm@),
    {
        match nk {
            NullifierKeyContainer::Key(k) => Some(Nullifier(poseidon4(k, rho, psi, cm))),
            NullifierKeyContainer::Commitment(_) => None,
        }
    }
}

/// Equal derivation inputs always yield equal nullifiers: nullifier
/// derivation is deterministic.
pub proof fn lemma_nullifier_deterministic(
    nk1: Limbs,
    nk2: Limbs,
    rho1: Limbs,
    rho2: Limbs,
    psi1: Limbs,
    psi2: Limbs,
    cm1: Limbs,
    cm2: Limbs,
)
    requires
        nk1 == nk2,
        rho1 == rho2,
        psi1 == psi2,
        cm1 == cm2,
    ensures
        nullifier_of(nk1, rho1, psi1, cm1) == nullifier_of(nk2, rho2, psi2, cm2),
{
}

} // verus!
