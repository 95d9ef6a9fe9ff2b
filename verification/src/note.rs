//! Notes: the spendable units of the protocol, and their commitments.

use vstd::prelude::*;

use crate::field::{poseidon4, poseidon8, random_field_element};
use crate::field::{poseidon4_of, poseidon8_of, FieldElement, Limbs};
use crate::nullifier::{nullifier_of, Nullifier, NullifierKeyContainer};

verus! {

/// Domain tag for deriving the commitment blinding factor from a random seed.
pub const RCM_TAG: u64 = 1;

/// Domain tag for deriving `psi` from a random seed and `rho`.
pub const PSI_TAG: u64 = 2;

/// What the pseudo-random `psi` derived from a random seed and `rho` is.
/// It enters only nullifier derivation and stays outside the public half of
/// the note data.
pub open spec fn psi_of(seed: Limbs, rho: Limbs) -> Limbs {
    poseidon4_of((PSI_TAG, 0, 0, 0), seed, rho, FieldElement::spec_from_u64(0)@)
}

/// What the commitment blinding factor derived from a random seed is.
pub open spec fn rcm_of(seed: Limbs) -> Limbs {
    poseidon4_of(
        (RCM_TAG, 0, 0, 0),
        seed,
        FieldElement::spec_from_u64(0)@,
        FieldElement::spec_from_u64(0)@,
    )
}

/// Derives `psi` from blinding randomness and the nullifier-chaining field.
pub fn derive_psi(seed: &FieldElement, rho: &FieldElement) -> (r: FieldElement)
    ensures
        r@ == psi_of(seed@, rho@),
{
    let tag = FieldElement::from_u64(PSI_TAG);
    let z = FieldElement::zero();
    poseidon4(&tag, seed, rho, &z)
}

/// The hiding, binding digest of a note's fields: the leaf stored in the
/// commitment tree.
#[derive(Clone, Copy, Debug, PartialEq, Eq, Structural, Hash)]
pub struct NoteCommitment(pub FieldElement);

impl View for NoteCommitment {
    type V = Limbs;

    open spec fn view(&self) -> Limbs {
        self.0@
    }
}

impl NoteCommitment {
    /// The commitment's field element.
    pub fn inner(&self) -> (r: FieldElement)
        ensures
            r@ == self@,
    {
        self.0
    }
}

/// One spendable unit: a value governed by an application's validity
/// predicate, spendable by whoever knows the nullifier key, chained to its
/// predecessor through `rho`.
#[derive(Clone, Copy, Debug, PartialEq, Eq, Structural)]
pub struct Note {
    /// Commitment to the governing application's predicate identity and
    /// static configuration data.
    pub app_descriptor: FieldElement,
    /// Opaque application-interpreted data (e.g. authorization material).
    pub app_data_dynamic: FieldElement,
    /// The value carried by the note.
    pub value: u64,
    /// The spending authority: a nullifier key or a commitment to one.
    pub nk_container: NullifierKeyContainer,
    /// The nullifier of the note this one replaces, or a fresh random value
    /// for the first note of a chain.
    pub rho: Nullifier,
    /// Pseudo-random helper derived from `random_seed` and `rho`; used only
    /// inside nullifier derivation.
    pub psi: FieldElement,
    /// Blinding randomness for the commitment.
    pub random_seed: FieldElement,
    /// Whether the commitment must be proven present in the accumulator;
    /// false for ephemeral intent and padding notes.
    pub is_merkle_checked: bool,
}

impl Note {
    /// A note is well formed when its `psi` really is the pseudo-random
    /// derivation from its seed and `rho`.
    pub open spec fn well_formed(&self) -> bool {
        self.psi@ == psi_of(self.random_seed@, self.rho@)
    }

    /// What this note's commitment is: a hash over every field, blinded by
    /// the seed-derived factor.
    pub open spec fn spec_commitment(&self) -> Limbs {
        poseidon8_of(
            self.app_descriptor@,
            self.app_data_dynamic@,
            self.nk_container.spec_commitment_value(),
            self.rho@,
            self.psi@,
            FieldElement::spec_from_u64(self.value)@,
            rcm_of(self.random_seed@),
            FieldElement::spec_from_bool(self.is_merkle_checked)@,
        )
    }

    /// The secret key field used in nullifier derivation (meaningful only
    /// when the key is known).
    pub open spec fn spec_key_value(&self) -> Limbs {
        match self.nk_container {
            NullifierKeyContainer::Key(k) => k@,
            NullifierKeyContainer::Commitment(c) => c@,
        }
    }

    /// What this note's nullifier is, when its key is known.
    pub open spec fn spec_nullifier(&self) -> Limbs
        recommends
            self.nk_container.is_key(),
    {
        nullifier_of(self.spec_key_value(), self.rho@, self.psi@, self.spec_commitment())
    }

    /// Builds a note; `psi` is always derived from the seed and `rho`, so
    /// every constructed note is well formed.
    pub fn new(
        app_descriptor: FieldElement,
        app_data_dynamic: FieldElement,
        value: u64,
        nk_container: NullifierKeyContainer,
        rho: Nullifier,
        random_seed: FieldElement,
        is_merkle_checked: bool,
    ) -> (r: Note)
        ensures
            r.well_formed(),
            r.app_descriptor == app_descriptor,
            r.app_data_dynamic == app_data_dynamic,
            r.value == value,
            r.nk_container == nk_container,
            r.rho == rho,
            r.random_seed == random_seed,
            r.is_merkle_checked == is_merkle_checked,
    {
        let rho_fe = rho.inner();
        let psi = derive_psi(&random_seed, &rho_fe);
        Note {
            app_descriptor,
            app_data_dynamic,
            value,
            nk_container,
            rho,
            psi,
            random_seed,
            is_merkle_checked,
        }
    }

    /// Computes the note's commitment.
    pub fn commitment(&self) -> (r: NoteCommitment)
        ensures
            r@ == self.spec_commitment(),
    {
        let nk_fe = self.nk_container.commitment_value();
        let value_fe = FieldElement::from_u64(self.value);
        let rcm = self.get_rcm();
        let checked_fe = FieldElement::from_bool(self.is_merkle_checked);
        NoteCommitment(
            poseidon8(
                &self.app_descriptor,
                &self.app_data_dynamic,
                &nk_fe,
                &self.rho.inner(),
                &self.psi,
                &value_fe,
                &rcm,
                &checked_fe,
            ),
        )
    }

    /// The commitment blinding factor derived from the note's random seed.
    pub fn get_rcm(&self) -> (r: FieldElement)
        ensures
            r@ == rcm_of(self.random_seed@),
    {
        let tag = FieldElement::from_u64(RCM_TAG);
        let z = FieldElement::zero();
        poseidon4(&tag, &self.random_seed, &z, &z)
    }

    /// The note's `psi`.
    pub fn get_psi(&self) -> (r: FieldElement)
        ensures
            r@ == self.psi@,
    {
        self.psi
    }

    /// Derives the note's nullifier. Fails exactly when the note holds only
    /// a key commitment: spending requires knowledge of the key.
    pub fn get_nf(&self) -> (r: Option<Nullifier>)
        ensures
            r is Some <==> self.nk_container.is_key(),
            r matches Some(nf) ==> nf@ == self.spec_nullifier(),
    {
        let cm = self.commitment();
        let rho_fe = self.rho.inner();
        let cm_fe = cm.inner();
        Nullifier::derive(&self.nk_container, &rho_fe, &self.psi, &cm_fe)
    }

    /// A padding note for an unused input slot: zero value, not Merkle
    /// checked, with a known (random) key so its nullifier can be derived.
    pub fn random_padding_input_note() -> (r: Note)
        ensures
            r.well_formed(),
            r.value == 0,
            !r.is_merkle_checked,
            r.nk_container.is_key(),
    {
        let zero = FieldElement::zero();
        Note::new(
            zero,
            zero,
            0,
            NullifierKeyContainer::Key(random_field_element()),
            Nullifier::from_field(random_field_element()),
            random_field_element(),
            false,
        )
    }

    /// A padding note for an unused output slot, chained to the padding
    /// input's nullifier.
    pub fn random_padding_output_note(rho: Nullifier) -> (r: Note)
        ensures
            r.well_formed(),
            r.value == 0,
            !r.is_merkle_checked,
            r.rho == rho,
    {
        let zero = FieldElement::zero();
        Note::new(
            zero,
            zero,
            0,
            NullifierKeyContainer::Commitment(random_field_element()),
            rho,
            random_field_element(),
            false,
        )
    }
}

/// Equal notes always yield equal commitments and, when the key is known,
/// equal nullifiers: commitment and nullifier derivation are deterministic.
pub proof fn lemma_derivations_deterministic(n1: Note, n2: Note)
    requires
        n1 == n2,
    ensures
        n1.spec_commitment() == n2.spec_commitment(),
        n1.spec_nullifier() == n2.spec_nullifier(),
{
}

} // verus!
