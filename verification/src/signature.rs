//! Schnorr signatures over the proving curve, and the signature-verification
//! validity predicate: a note is spendable only with a signature over the
//! transaction's nullifiers and commitments that verifies against the public
//! key committed into the note's dynamic data.

use vstd::prelude::*;

use crate::error::TransactionError;
use crate::field::{
    base_mul, base_mul_of, mod_r_p, mod_r_p_of, point_add, point_add_of, point_mul, point_mul_of,
    point_x, point_x_of, point_y, point_y_of, poseidon4, poseidon4_of, poseidon8, poseidon8_of,
    random_scalar, scalar_add, scalar_add_of, scalar_mul, scalar_mul_of, CurvePoint, CurveScalar,
    FieldElement, Limbs,
};
use crate::note::Note;
use crate::vp::{spec_inputs_spendable, spec_mandatory_instance};
use crate::NUM_NOTE;

verus! {

/// The signed message holds one nullifier and one commitment per action.
pub const MESSAGE_LEN: usize = 4;

/// A Schnorr signature: the signer's public key and the pair (r, s).
#[derive(Clone, Copy, Debug)]
pub struct SchnorrSignature {
    /// The public key the signature verifies against.
    pub pk: CurvePoint,
    /// The commitment half of the signature.
    pub r: CurvePoint,
    /// The response half of the signature.
    pub s: CurveScalar,
}

/// What the challenge scalar of a signature over a four-element message is:
/// the Poseidon hash of the commitment point, the public key, and the
/// message, read into the scalar field.
pub open spec fn spec_challenge(pk: Seq<u8>, r: Seq<u8>, msg: Seq<Limbs>) -> Limbs
    recommends
        msg.len() == MESSAGE_LEN,
{
    mod_r_p_of(
        poseidon8_of(
            point_x_of(r),
            point_y_of(r),
            point_x_of(pk),
            point_y_of(pk),
            msg[0],
            msg[1],
            msg[2],
            msg[3],
        ),
    )
}

/// What it means for a signature over a message to verify:
/// s·G equals R plus the challenge times the public key.
pub open spec fn spec_schnorr_check(pk: Seq<u8>, r: Seq<u8>, s: Limbs, msg: Seq<Limbs>) -> bool
    recommends
        msg.len() == MESSAGE_LEN,
{
    base_mul_of(s) == point_add_of(r, point_mul_of(pk, spec_challenge(pk, r, msg)))
}

impl Default for SchnorrSignature {
    /// The generator as key and commitment, with response one.
    fn default() -> (r: SchnorrSignature)
        ensures
            r.pk@ == base_mul_of(CurveScalar::spec_from_u64(1)@),
            r.r@ == base_mul_of(CurveScalar::spec_from_u64(1)@),
            r.s == CurveScalar::spec_from_u64(1),
    {
        let one = CurveScalar::from_u64(1);
        let g = base_mul(&one);
        SchnorrSignature { pk: g, r: g, s: one }
    }
}

impl SchnorrSignature {
    /// Signs a four-element message with a fresh random nonce. The public
    /// key of the result is always the generator times the secret key, and
    /// for some nonce z the commitment is z times the generator and the
    /// response is z plus the challenge times the secret key; which nonce
    /// came out is not promised.
    pub fn sign(sk: &CurveScalar, message: &Vec<FieldElement>) -> (r: SchnorrSignature)
        requires
            message@.len() == MESSAGE_LEN,
        ensures
            r.pk@ == base_mul_of(sk@),
            exists|z: Limbs|
                r.r@ == base_mul_of(z) && r.s@ == scalar_add_of(
                    z,
                    scalar_mul_of(
                        spec_challenge(
                            r.pk@,
                            r.r@,
                            message@.map_values(|f: FieldElement| f@),
                        ),
                        sk@,
                    ),
                ),
    {
        let z = random_scalar();
        let pk = base_mul(sk);
        let rr = base_mul(&z);
        let rx = point_x(&rr);
        let ry = point_y(&rr);
        let pkx = point_x(&pk);
        let pky = point_y(&pk);
        let h_fe = poseidon8(
            &rx,
            &ry,
            &pkx,
            &pky,
            &message[0],
            &message[1],
            &message[2],
            &message[3],
        );
        let h = mod_r_p(&h_fe);
        let hs = scalar_mul(&h, sk);
        let s = scalar_add(&z, &hs);
        let sig = SchnorrSignature { pk, r: rr, s };
        proof {
            let msg = message@.map_values(|f: FieldElement| f@);
            assert(msg[0] == message@[0]@);
            assert(msg[1] == message@[1]@);
            assert(msg[2] == message@[2]@);
            assert(msg[3] == message@[3]@);
            assert(sig.r@ == base_mul_of(z@) && sig.s@ == scalar_add_of(
                z@,
                scalar_mul_of(spec_challenge(sig.pk@, sig.r@, msg), sk@),
            ));
        }
        sig
    }

    /// Checks the verification equation over the curve.
    pub fn verify(&self, message: &Vec<FieldElement>) -> (r: bool)
        requires
            message@.len() == MESSAGE_LEN,
        ensures
            r == spec_schnorr_check(
                self.pk@,
                self.r@,
                self.s@,
                message@.map_values(|f: FieldElement| f@),
            ),
    {
        proof {
            let msg = message@.map_values(|f: FieldElement| f@);
            assert(msg[0] == message@[0]@);
            assert(msg[1] == message@[1]@);
            assert(msg[2] == message@[2]@);
            assert(msg[3] == message@[3]@);
        }
        let rx = point_x(&self.r);
        let ry = point_y(&self.r);
        let pkx = point_x(&self.pk);
        let pky = point_y(&self.pk);
        let h_fe = poseidon8(
            &rx,
            &ry,
            &pkx,
            &pky,
            &message[0],
            &message[1],
            &message[2],
            &message[3],
        );
        let h = mod_r_p(&h_fe);
        let lhs = base_mul(&self.s);
        let hp = point_mul(&self.pk, &h);
        let rhs = point_add(&self.r, &hp);
        lhs.encoding_eq(&rhs)
    }
}

/// What the dynamic-data commitment binding a public key and two verifying
/// keys into a note is.
pub open spec fn spec_auth_encoding(pk: Seq<u8>, vk: Limbs, receiver_vk: Limbs) -> Limbs {
    poseidon4_of(point_x_of(pk), point_y_of(pk), vk, receiver_vk)
}

/// Computes the dynamic-data commitment for an authorization key.
pub fn auth_encoding(pk: &CurvePoint, vk: &FieldElement, receiver_vk: &FieldElement) -> (r:
    FieldElement)
    ensures
        r@ == spec_auth_encoding(pk@, vk@, receiver_vk@),
{
    let pkx = point_x(pk);
    let pky = point_y(pk);
    poseidon4(&pkx, &pky, vk, receiver_vk)
}

/// The signature-verification validity predicate: the owned note's dynamic
/// data commits to the signer's key, and the signature over the
/// transaction's nullifiers and commitments verifies against it.
#[derive(Clone, Copy, Debug)]
pub struct SignatureVerificationValidityPredicateCircuit {
    /// The public identity of the note this predicate instance governs.
    pub owned_note_pub_id: FieldElement,
    /// The input notes of the enclosing partial transaction.
    pub input_notes: [Note; NUM_NOTE],
    /// The output notes of the enclosing partial transaction.
    pub output_notes: [Note; NUM_NOTE],
    /// The verifying key committed into the owned note's dynamic data.
    pub vp_vk: FieldElement,
    /// The authorization signature.
    pub signature: SchnorrSignature,
    /// The receiver predicate's verifying key, also committed.
    pub receiver_vp_vk: FieldElement,
}

/// What the signed message of a predicate instance is: each input note's
/// nullifier followed by the paired output note's commitment.
pub open spec fn spec_signed_message(inputs: [Note; NUM_NOTE], outputs: [Note; NUM_NOTE]) -> Seq<
    Limbs,
> {
    seq![
        inputs@[0].spec_nullifier(),
        outputs@[0].spec_commitment(),
        inputs@[1].spec_nullifier(),
        outputs@[1].spec_commitment(),
    ]
}

impl SignatureVerificationValidityPredicateCircuit {
    /// Wraps an externally produced signature with its witness.
    pub fn new(
        owned_note_pub_id: FieldElement,
        input_notes: [Note; NUM_NOTE],
        output_notes: [Note; NUM_NOTE],
        vp_vk: FieldElement,
        signature: SchnorrSignature,
        receiver_vp_vk: FieldElement,
    ) -> (r: SignatureVerificationValidityPredicateCircuit)
        ensures
            r.owned_note_pub_id == owned_note_pub_id,
            r.input_notes == input_notes,
            r.output_notes == output_notes,
            r.vp_vk == vp_vk,
            r.signature == signature,
            r.receiver_vp_vk == receiver_vp_vk,
    {
        SignatureVerificationValidityPredicateCircuit {
            owned_note_pub_id,
            input_notes,
            output_notes,
            vp_vk,
            signature,
            receiver_vp_vk,
        }
    }

    /// Signs the transaction's nullifiers and commitments with the given
    /// secret key and wraps the result. Requires every input note's
    /// nullifier key to be known, since the message holds the nullifiers.
    pub fn from_sk_and_sign(
        owned_note_pub_id: FieldElement,
        input_notes: [Note; NUM_NOTE],
        output_notes: [Note; NUM_NOTE],
        vp_vk: FieldElement,
        sk: &CurveScalar,
        receiver_vp_vk: FieldElement,
    ) -> (r: SignatureVerificationValidityPredicateCircuit)
        requires
            spec_inputs_spendable(input_notes),
        ensures
            r.owned_note_pub_id == owned_note_pub_id,
            r.input_notes == input_notes,
            r.output_notes == output_notes,
            r.vp_vk == vp_vk,
            r.receiver_vp_vk == receiver_vp_vk,
            r.signature.pk@ == base_mul_of(sk@),
            exists|z: Limbs|
                r.signature.r@ == base_mul_of(z) && r.signature.s@ == scalar_add_of(
                    z,
                    scalar_mul_of(
                        spec_challenge(
                            r.signature.pk@,
                            r.signature.r@,
                            spec_signed_message(input_notes, output_notes),
                        ),
                        sk@,
                    ),
                ),
    {
        let mut message: Vec<FieldElement> = Vec::new();
        let nf0 = match input_notes[0].get_nf() {
            Some(nf) => nf,
            None => {
                proof {
                    assert(false);
                }
                crate::nullifier::Nullifier::from_field(FieldElement::zero())
            },
        };
        let nf1 = match input_notes[1].get_nf() {
            Some(nf) => nf,
            None => {
                proof {
                    assert(false);
                }
                crate::nullifier::Nullifier::from_field(FieldElement::zero())
            },
        };
        message.push(nf0.inner());
        message.push(output_notes[0].commitment().inner());
        message.push(nf1.inner());
        message.push(output_notes[1].commitment().inner());
        proof {
            assert(message@.map_values(|f: FieldElement| f@) =~= spec_signed_message(
                input_notes,
                output_notes,
            ));
        }
        let signature = SchnorrSignature::sign(sk, &message);
        SignatureVerificationValidityPredicateCircuit {
            owned_note_pub_id,
            input_notes,
            output_notes,
            vp_vk,
            signature,
            receiver_vp_vk,
        }
    }

    /// The dynamic data of the note whose public identity is the owned one:
    /// an input note is identified by its nullifier, an output note by its
    /// commitment.
    pub open spec fn spec_owned_app_data(&self) -> Option<Limbs> {
        if self.input_notes@[0].spec_nullifier() == self.owned_note_pub_id@ {
            Some(self.input_notes@[0].app_data_dynamic@)
        } else if self.input_notes@[1].spec_nullifier() == self.owned_note_pub_id@ {
            Some(self.input_notes@[1].app_data_dynamic@)
        } else if self.output_notes@[0].spec_commitment() == self.owned_note_pub_id@ {
            Some(self.output_notes@[0].app_data_dynamic@)
        } else if self.output_notes@[1].spec_commitment() == self.owned_note_pub_id@ {
            Some(self.output_notes@[1].app_data_dynamic@)
        } else {
            None
        }
    }

    /// Whether the predicate holds: the input notes are spendable, the
    /// owned note exists and commits to the signer's key, and the signature
    /// over the nullifiers and commitments verifies.
    pub open spec fn spec_satisfied(&self) -> bool {
        &&& spec_inputs_spendable(self.input_notes)
        &&& self.spec_owned_app_data() matches Some(d) && d == spec_auth_encoding(
            self.signature.pk@,
            self.vp_vk@,
            self.receiver_vp_vk@,
        )
        &&& spec_schnorr_check(
            self.signature.pk@,
            self.signature.r@,
            self.signature.s@,
            spec_signed_message(self.input_notes, self.output_notes),
        )
    }

    /// Checks the predicate on its witness.
    pub fn check(&self) -> (r: bool)
        ensures
            r == self.spec_satisfied(),
    {
        let nf0 = match self.input_notes[0].get_nf() {
            Some(nf) => nf,
            None => {
                return false;
            },
        };
        let nf1 = match self.input_notes[1].get_nf() {
            Some(nf) => nf,
            None => {
                return false;
            },
        };
        let cm0 = self.output_notes[0].commitment().inner();
        let cm1 = self.output_notes[1].commitment().inner();
        let owned_data = if nf0.inner() == self.owned_note_pub_id {
            self.input_notes[0].app_data_dynamic
        } else if nf1.inner() == self.owned_note_pub_id {
            self.input_notes[1].app_data_dynamic
        } else if cm0 == self.owned_note_pub_id {
            self.output_notes[0].app_data_dynamic
        } else if cm1 == self.owned_note_pub_id {
            self.output_notes[1].app_data_dynamic
        } else {
            return false;
        };
        let expected = auth_encoding(&self.signature.pk, &self.vp_vk, &self.receiver_vp_vk);
        if owned_data != expected {
            return false;
        }
        let mut message: Vec<FieldElement> = Vec::new();
        message.push(nf0.inner());
        message.push(cm0);
        message.push(nf1.inner());
        message.push(cm1);
        proof {
            assert(message@.map_values(|f: FieldElement| f@) =~= spec_signed_message(
                self.input_notes,
                self.output_notes,
            ));
        }
        self.signature.verify(&message)
    }
}

} // verus!
