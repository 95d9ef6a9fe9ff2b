//! Tokens: named fungible applications, their per-name descriptors, and
//! the authorization material bound into token notes.

use vstd::prelude::*;

use vstd::utf8::encode_utf8;

use crate::field::{
    base_mul, base_mul_of, hash_to_curve, hash_to_curve_of, point_x, point_x_of,
    random_field_element, CurvePoint, CurveScalar, FieldElement, Limbs,
};
use crate::note::Note;
use crate::nullifier::{Nullifier, NullifierKeyContainer};
use crate::signature::{auth_encoding, spec_auth_encoding};

verus! {

/// What the application descriptor of a token with the given name is: a
/// per-name curve point, so that values of different tokens can never be
/// netted against each other.
pub open spec fn spec_token_descriptor(name: Seq<char>) -> Limbs {
    point_x_of(hash_to_curve_of("taiga:token"@, encode_utf8(name)))
}

/// Computes the per-name application descriptor of a token.
pub fn token_descriptor(name: &String) -> (r: FieldElement)
    ensures
        r@ == spec_token_descriptor(name@),
{
    proof {
        reveal_strlit("taiga:token");
        assert(vstd::utf8::is_ascii_chars("taiga:token"@));
        vstd::utf8::is_ascii_chars_encode_utf8("taiga:token"@);
    }
    let p = hash_to_curve("taiga:token", name.as_str().as_bytes());
    point_x(&p)
}

/// A named amount of one fungible application.
#[derive(Clone, Debug)]
pub struct Token {
    /// The token's name, from which its application descriptor derives.
    pub name: String,
    /// The amount.
    pub value: u64,
}

impl Token {
    /// Pairs a name with an amount.
    pub fn new(name: String, value: u64) -> (r: Token)
        ensures
            r.name@ == name@,
            r.value == value,
    {
        Token { name, value }
    }

    /// The token's name.
    pub fn name(&self) -> (r: &String)
        ensures
            r@ == self.name@,
    {
        &self.name
    }

    /// The amount.
    pub fn value(&self) -> (r: u64)
        ensures
            r == self.value,
    {
        self.value
    }

    /// A fresh token note carrying this token's value, owned by whoever the
    /// authorization's key belongs to.
    pub fn create_random_token_note(
        &self,
        rho: Nullifier,
        nk: NullifierKeyContainer,
        auth: &TokenAuthorization,
    ) -> (r: TokenNote)
        ensures
            r.token_name@ == self.name@,
            r.note.well_formed(),
            r.note.app_descriptor@ == spec_token_descriptor(self.name@),
            r.note.app_data_dynamic@ == spec_auth_encoding(auth.pk@, auth.vk@, (0u64, 0u64, 0u64, 0u64)),
            r.note.value == self.value,
            r.note.nk_container == nk,
            r.note.rho == rho,
            r.note.is_merkle_checked,
    {
        let descriptor = token_descriptor(&self.name);
        let zero = FieldElement::zero();
        let data = auth_encoding(&auth.pk, &auth.vk, &zero);
        let note = Note::new(descriptor, data, self.value, nk, rho, random_field_element(), true);
        let name = self.name.as_str().to_owned();
        TokenNote { token_name: name, note }
    }
}

/// The key material authorizing spends of a token note: a public key and
/// the verifying key of the signature predicate it is bound to.
#[derive(Clone, Copy, Debug)]
pub struct TokenAuthorization {
    /// The authorization public key.
    pub pk: CurvePoint,
    /// The verifying key of the signature-checking predicate.
    pub vk: FieldElement,
}

impl TokenAuthorization {
    /// Pairs a public key with a predicate verifying key.
    pub fn new(pk: CurvePoint, vk: FieldElement) -> (r: TokenAuthorization)
        ensures
            r.pk == pk,
            r.vk == vk,
    {
        TokenAuthorization { pk, vk }
    }

    /// The authorization whose public key is the generator times the given
    /// secret key.
    pub fn from_sk_vk(sk: &CurveScalar, vk: &FieldElement) -> (r: TokenAuthorization)
        ensures
            r.pk@ == base_mul_of(sk@),
            r.vk == *vk,
    {
        let pk = base_mul(sk);
        TokenAuthorization { pk, vk: *vk }
    }
}

/// A note known to carry a given token.
#[derive(Clone, Debug)]
pub struct TokenNote {
    /// The token's name.
    pub token_name: String,
    /// The note itself.
    pub note: Note,
}

impl TokenNote {
    /// The underlying note.
    pub fn note(&self) -> (r: &Note)
        ensures
            r == &self.note,
    {
        &self.note
    }
}

} // verus!
