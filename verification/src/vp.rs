//! Validity predicates: the uniform verifying-info shape every predicate
//! produces, and the note-inspecting example predicates.
//!
//! The external proving engine is out of scope; here a proof is a binding
//! digest of the verifying key and the public instance, produced only after
//! the predicate's own constraints have been checked on the witness, and
//! re-checked against the claimed instance at verification time.

use vstd::prelude::*;

use crate::error::TransactionError;
use crate::field::{poseidon2, poseidon2_of, FieldElement, Limbs};
use crate::note::Note;
use crate::NUM_NOTE;

verus! {

/// Domain tag of verifying-key digests.
pub const VK_TAG: u64 = 4;

/// Domain tag of proof digests.
pub const PROOF_TAG: u64 = 5;

/// Domain tag of byte-string digests.
pub const BYTES_TAG: u64 = 6;

/// Folds a sequence of limbs into a digest, starting from entry `i`.
pub open spec fn spec_fold_from(acc: Limbs, s: Seq<Limbs>, i: int) -> Limbs
    decreases s.len() - i,
{
    if i < 0 || i >= s.len() {
        acc
    } else {
        spec_fold_from(poseidon2_of(acc, s[i]), s, i + 1)
    }
}

/// What the digest of a sequence of field elements is.
pub open spec fn spec_fold_digest(acc: Limbs, s: Seq<Limbs>) -> Limbs {
    spec_fold_from(acc, s, 0)
}

/// Folds a byte string into a digest, starting from byte `i`.
pub open spec fn spec_bytes_fold_from(acc: Limbs, s: Seq<u8>, i: int) -> Limbs
    decreases s.len() - i,
{
    if i < 0 || i >= s.len() {
        acc
    } else {
        spec_bytes_fold_from(
            poseidon2_of(acc, FieldElement::spec_from_u64(s[i] as u64)@),
            s,
            i + 1,
        )
    }
}

/// What the digest of a byte string is.
pub open spec fn spec_bytes_digest(s: Seq<u8>) -> Limbs {
    spec_bytes_fold_from(FieldElement::spec_from_u64(BYTES_TAG)@, s, 0)
}

/// The limb views of a sequence of field elements.
pub open spec fn views_of(s: Seq<FieldElement>) -> Seq<Limbs> {
    s.map_values(|f: FieldElement| f@)
}

/// What the proof digest over a verifying key and a public instance is.
pub open spec fn spec_proof_digest(vk: Limbs, instance: Seq<Limbs>) -> Limbs {
    spec_fold_digest(poseidon2_of((PROOF_TAG, 0, 0, 0), vk), instance)
}

/// Folds a vector of field elements into a digest.
pub fn fold_digest(acc: FieldElement, s: &Vec<FieldElement>) -> (r: FieldElement)
    ensures
        r@ == spec_fold_digest(acc@, views_of(s@)),
{
    let mut cur = acc;
    let mut i: usize = 0;
    while i < s.len()
        invariant
            i <= s@.len(),
            spec_fold_from(acc@, views_of(s@), 0) == spec_fold_from(cur@, views_of(s@), i as int),
        decreases s@.len() - i,
    {
        proof {
            assert(views_of(s@)[i as int] == s@[i as int]@);
        }
        cur = poseidon2(&cur, &s[i]);
        i += 1;
    }
    cur
}

/// Folds a byte string into a digest.
pub fn bytes_digest(s: &Vec<u8>) -> (r: FieldElement)
    ensures
        r@ == spec_bytes_digest(s@),
{
    let tag = FieldElement::from_u64(BYTES_TAG);
    let mut cur = tag;
    let mut i: usize = 0;
    while i < s.len()
        invariant
            i <= s@.len(),
            spec_bytes_fold_from(tag@, s@, 0) == spec_bytes_fold_from(cur@, s@, i as int),
        decreases s@.len() - i,
    {
        let b = FieldElement::from_u64(s[i] as u64);
        cur = poseidon2(&cur, &b);
        i += 1;
    }
    cur
}

/// The uniform result of proving one validity predicate: verifying key,
/// proof, and public instance. Callers never branch on the predicate kind.
#[derive(Clone, Debug)]
pub struct VPVerifyingInfo {
    /// Digest identifying the predicate circuit.
    pub vk: FieldElement,
    /// The binding proof digest over the key and the instance.
    pub proof: FieldElement,
    /// The public instance the proof is claimed for.
    pub instance: Vec<FieldElement>,
}

impl VPVerifyingInfo {
    /// Whether a verifying info is internally consistent.
    pub open spec fn spec_valid(&self) -> bool {
        self.proof@ == spec_proof_digest(self.vk@, views_of(self.instance@))
    }

    /// Checks the proof against its claimed verifying key and instance.
    pub fn verify(&self) -> (r: bool)
        ensures
            r == self.spec_valid(),
    {
        let tag = FieldElement::from_u64(PROOF_TAG);
        let init = poseidon2(&tag, &self.vk);
        let expected = fold_digest(init, &self.instance);
        expected == self.proof
    }
}

/// Binds a verifying key and a public instance into a proof digest. It
/// stands in for the out-of-scope proving engine and is deliberately
/// crate-internal: only the dispatcher mints verifying infos, and only
/// after the predicate's witness has been checked.
pub(crate) fn make_verifying_info(vk: FieldElement, instance: Vec<FieldElement>) -> (r: VPVerifyingInfo)
    ensures
        r.vk == vk,
        r.instance == instance,
        r.spec_valid(),
{
    let tag = FieldElement::from_u64(PROOF_TAG);
    let init = poseidon2(&tag, &vk);
    let proof = fold_digest(init, &instance);
    VPVerifyingInfo { vk, proof, instance }
}

/// Whether every input note's nullifier key is known.
pub open spec fn spec_inputs_spendable(inputs: [Note; NUM_NOTE]) -> bool {
    forall|i: int| 0 <= i < NUM_NOTE ==> inputs@[i].nk_container.is_key()
}

/// What the mandatory public instance of a note-inspecting predicate is:
/// the owned note's public identity, then each input note's nullifier and
/// the paired output note's commitment.
pub open spec fn spec_mandatory_instance(
    owned: Limbs,
    inputs: [Note; NUM_NOTE],
    outputs: [Note; NUM_NOTE],
) -> Seq<Limbs> {
    seq![
        owned,
        inputs@[0].spec_nullifier(),
        outputs@[0].spec_commitment(),
        inputs@[1].spec_nullifier(),
        outputs@[1].spec_commitment(),
    ]
}

/// Computes the mandatory public instance. Fails with a witness error
/// exactly when some input note's nullifier key is not known.
pub fn mandatory_instance(
    owned: &FieldElement,
    inputs: &[Note; NUM_NOTE],
    outputs: &[Note; NUM_NOTE],
) -> (r: Result<Vec<FieldElement>, TransactionError>)
    ensures
        r is Ok <==> spec_inputs_spendable(*inputs),
        r matches Ok(v) ==> views_of(v@) == spec_mandatory_instance(owned@, *inputs, *outputs),
        r matches Err(e) ==> e == TransactionError::WitnessError,
{
    let nf0 = match inputs[0].get_nf() {
        Some(nf) => nf,
        None => {
            return Err(TransactionError::WitnessError);
        },
    };
    let nf1 = match inputs[1].get_nf() {
        Some(nf) => nf,
        None => {
            return Err(TransactionError::WitnessError);
        },
    };
    let cm0 = outputs[0].commitment();
    let cm1 = outputs[1].commitment();
    let mut v: Vec<FieldElement> = Vec::new();
    v.push(*owned);
    v.push(nf0.inner());
    v.push(cm0.inner());
    v.push(nf1.inner());
    v.push(cm1.inner());
    proof {
        assert(views_of(v@) =~= spec_mandatory_instance(owned@, *inputs, *outputs));
    }
    Ok(v)
}

/// The no-op predicate used for padding notes and tests: it constrains
/// nothing beyond the shape of its public instance.
#[derive(Clone, Copy, Debug)]
pub struct TrivialValidityPredicateCircuit {
    /// The public identity of the note this predicate instance governs.
    pub owned_note_pub_id: FieldElement,
    /// The input notes of the enclosing partial transaction.
    pub input_notes: [Note; NUM_NOTE],
    /// The output notes of the enclosing partial transaction.
    pub output_notes: [Note; NUM_NOTE],
}

impl TrivialValidityPredicateCircuit {
    /// Wraps the witness; the trivial predicate accepts any.
    pub fn new(
        owned_note_pub_id: FieldElement,
        input_notes: [Note; NUM_NOTE],
        output_notes: [Note; NUM_NOTE],
    ) -> (r: TrivialValidityPredicateCircuit)
        ensures
            r.owned_note_pub_id == owned_note_pub_id,
            r.input_notes == input_notes,
            r.output_notes == output_notes,
    {
        TrivialValidityPredicateCircuit { owned_note_pub_id, input_notes, output_notes }
    }
}

/// The balance predicate: all notes belong to one application and the
/// input values sum to the output values.
#[derive(Clone, Copy, Debug)]
pub struct BalanceValidityPredicate {
    /// The input notes of the enclosing partial transaction.
    pub input_notes: [Note; NUM_NOTE],
    /// The output notes of the enclosing partial transaction.
    pub output_notes: [Note; NUM_NOTE],
}

impl BalanceValidityPredicate {
    /// Wraps the witness.
    pub fn new(input_notes: [Note; NUM_NOTE], output_notes: [Note; NUM_NOTE]) -> (r:
        BalanceValidityPredicate)
        ensures
            r.input_notes == input_notes,
            r.output_notes == output_notes,
    {
        BalanceValidityPredicate { input_notes, output_notes }
    }

    /// Whether the predicate holds: one application throughout, and value
    /// conservation between inputs and outputs.
    pub open spec fn spec_satisfied(&self) -> bool {
        let app = self.input_notes@[0].app_descriptor;
        &&& self.input_notes@[1].app_descriptor == app
        &&& self.output_notes@[0].app_descriptor == app
        &&& self.output_notes@[1].app_descriptor == app
        &&& self.input_notes@[0].value + self.input_notes@[1].value == self.output_notes@[0].value
            + self.output_notes@[1].value
    }

    /// Checks the predicate on its witness.
    pub fn check(&self) -> (r: bool)
        ensures
            r == self.spec_satisfied(),
    {
        let app = self.input_notes[0].app_descriptor;
        if !(self.input_notes[1].app_descriptor == app) {
            return false;
        }
        if !(self.output_notes[0].app_descriptor == app) {
            return false;
        }
        if !(self.output_notes[1].app_descriptor == app) {
            return false;
        }
        let in_sum: u128 = self.input_notes[0].value as u128 + self.input_notes[1].value as u128;
        let out_sum: u128 = self.output_notes[0].value as u128
            + self.output_notes[1].value as u128;
        in_sum == out_sum
    }
}

} // verus!
