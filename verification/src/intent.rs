//! The partial-fulfillment swap intent: an ephemeral note encoding a trade
//! offer, and the predicate holding a fulfillment to the offered rate, full
//! or partial with a returned remainder.

use vstd::prelude::*;

use crate::field::{poseidon2, poseidon2_of, poseidon4, poseidon4_of, random_field_element, FieldElement, Limbs};
use crate::note::{psi_of, Note};
use crate::nullifier::{Nullifier, NullifierKeyContainer};
use crate::token::{spec_token_descriptor, token_descriptor, Token, TokenAuthorization, TokenNote};
use crate::NUM_NOTE;

verus! {

/// Domain tag of intent-application descriptors.
pub const INTENT_TAG: u64 = 8;

/// A trade offer: a held token note to sell, the token asked in exchange,
/// and the offerer's authorization.
#[derive(Debug)]
pub struct Swap {
    /// The note offered for sale.
    pub sell: TokenNote,
    /// What is asked in exchange.
    pub buy: Token,
    /// The offerer's authorization; fulfillment outputs are owed to it.
    pub auth: TokenAuthorization,
}

/// What the application descriptor of a swap's intent note is: a commitment
/// over the sold note and the asked token, so each offer is its own
/// application.
pub open spec fn spec_intent_descriptor(swap: &Swap) -> Limbs {
    poseidon4_of(
        (INTENT_TAG, 0, 0, 0),
        swap.sell.note.spec_commitment(),
        spec_token_descriptor(swap.buy.name@),
        FieldElement::spec_from_u64(swap.buy.value)@,
    )
}

impl Clone for Swap {
    /// A copy agreeing with the original on every field the protocol
    /// reads.
    fn clone(&self) -> (r: Swap)
        ensures
            r.sell.note == self.sell.note,
            r.sell.token_name@ == self.sell.token_name@,
            r.buy.name@ == self.buy.name@,
            r.buy.value == self.buy.value,
            r.auth == self.auth,
    {
        Swap {
            sell: TokenNote {
                token_name: self.sell.token_name.as_str().to_owned(),
                note: self.sell.note,
            },
            buy: Token { name: self.buy.name.as_str().to_owned(), value: self.buy.value },
            auth: self.auth,
        }
    }
}

impl Swap {
    /// Pairs an offer with what it asks for. The sold note must be
    /// spendable: creating the intent consumes it.
    pub fn new(sell: TokenNote, buy: Token, auth: TokenAuthorization) -> (r: Swap)
        requires
            sell.note.nk_container.is_key(),
        ensures
            r.sell == sell,
            r.buy.name@ == buy.name@,
            r.buy.value == buy.value,
            r.auth == auth,
    {
        Swap { sell, buy, auth }
    }

    /// An offer over a freshly created sell note: the note carries the
    /// sold token's descriptor and value, a fresh random key, and fresh
    /// randomness.
    pub fn random(sell: &Token, buy: Token, auth: TokenAuthorization) -> (r: Swap)
        ensures
            r.sell.note.nk_container.is_key(),
            r.sell.note.well_formed(),
            r.sell.note.value == sell.value,
            r.sell.note.app_descriptor@ == spec_token_descriptor(sell.name@),
            r.sell.note.is_merkle_checked,
            r.buy.name@ == buy.name@,
            r.buy.value == buy.value,
            r.auth == auth,
    {
        let rho = Nullifier::from_field(random_field_element());
        let nk = NullifierKeyContainer::Key(random_field_element());
        let sell_note = sell.create_random_token_note(rho, nk, &auth);
        Swap { sell: sell_note, buy, auth }
    }

    /// What the swap's intent note is: an ephemeral note of value one in
    /// the offer's own application, chained to the sold note's nullifier,
    /// and deterministic in the swap, so offer and fulfillment construct
    /// the very same note.
    pub open spec fn spec_intent_note(&self) -> Note
        recommends
            self.sell.note.nk_container.is_key(),
    {
        let rho = self.sell.note.spec_nullifier();
        let seed = poseidon2_of(self.sell.note.random_seed@, (INTENT_TAG, 0, 0, 0));
        Note {
            app_descriptor: crate::codec::fe_of_limbs(spec_intent_descriptor(self)),
            app_data_dynamic: self.sell.note.app_data_dynamic,
            value: 1,
            nk_container: self.sell.note.nk_container,
            rho: Nullifier(crate::codec::fe_of_limbs(rho)),
            psi: crate::codec::fe_of_limbs(psi_of(seed, rho)),
            random_seed: crate::codec::fe_of_limbs(seed),
            is_merkle_checked: false,
        }
    }

    /// Builds the intent note.
    pub fn create_intent_note(&self) -> (r: Note)
        requires
            self.sell.note.nk_container.is_key(),
        ensures
            r == self.spec_intent_note(),
            r.well_formed(),
            r.nk_container.is_key(),
    {
        let nf = match self.sell.note.get_nf() {
            Some(nf) => nf,
            None => {
                proof {
                    assert(false);
                }
                Nullifier::from_field(FieldElement::zero())
            },
        };
        let tag = FieldElement::from_u64(INTENT_TAG);
        let sell_cm = self.sell.note.commitment().inner();
        let buy_descriptor = token_descriptor(&self.buy.name);
        let buy_value_fe = FieldElement::from_u64(self.buy.value);
        let descriptor = poseidon4(&tag, &sell_cm, &buy_descriptor, &buy_value_fe);
        let seed = poseidon2(&self.sell.note.random_seed, &tag);
        Note::new(
            descriptor,
            self.sell.note.app_data_dynamic,
            1,
            self.sell.note.nk_container,
            nf,
            seed,
            false,
        )
    }

    /// The value sold for a partial fill of `bought` units of the asked
    /// token, at the offered rate.
    pub open spec fn spec_sold_value(&self, bought: u64) -> int {
        (bought * self.sell.note.value) / (self.buy.value as int)
    }

    /// Fulfills the intent with an offer of the asked token: the intent
    /// note and a padding note are consumed, a bought note of the offered
    /// amount and a returned note with the unsold remainder are created,
    /// both owed to the offerer's authorization. The offered amount must
    /// divide evenly at the offered rate and not exceed the ask.
    pub fn fill(&self, intent_note: Note, offer: Token) -> (r: ([Note; NUM_NOTE], [Note; NUM_NOTE]))
        requires
            self.sell.note.nk_container.is_key(),
            intent_note == self.spec_intent_note(),
            offer.name@ == self.buy.name@,
            0 < self.buy.value,
            offer.value <= self.buy.value,
            (offer.value * self.sell.note.value) % (self.buy.value as int) == 0,
        ensures
            r.0@[0] == intent_note,
            r.0@[1].value == 0,
            !r.0@[1].is_merkle_checked,
            r.0@[1].nk_container.is_key(),
            r.0@[0].well_formed(),
            r.0@[1].well_formed(),
            r.1@[0].well_formed(),
            r.1@[1].well_formed(),
            r.1@[0].app_descriptor@ == spec_token_descriptor(self.buy.name@),
            r.1@[0].value == offer.value,
            r.1@[1].app_descriptor == self.sell.note.app_descriptor,
            r.1@[1].value == self.sell.note.value - self.spec_sold_value(offer.value),
            r.1@[0].rho@ == r.0@[0].spec_nullifier(),
            r.1@[1].rho@ == r.0@[1].spec_nullifier(),
            r.1@[0].app_data_dynamic == self.sell.note.app_data_dynamic,
            r.1@[1].app_data_dynamic == self.sell.note.app_data_dynamic,
            r.1@[0].value * self.sell.note.value == (self.sell.note.value - r.1@[1].value)
                * self.buy.value,
    {
        let padding_input = Note::random_padding_input_note();
        let intent_nf = match intent_note.get_nf() {
            Some(nf) => nf,
            None => {
                proof {
                    assert(false);
                }
                Nullifier::from_field(FieldElement::zero())
            },
        };
        let padding_nf = match padding_input.get_nf() {
            Some(nf) => nf,
            None => {
                proof {
                    assert(false);
                }
                Nullifier::from_field(FieldElement::zero())
            },
        };
        proof {
            let a = offer.value as int;
            let b = self.sell.note.value as int;
            assert(a * b <= u128::MAX) by (nonlinear_arith)
                requires
                    0 <= a <= u64::MAX,
                    0 <= b <= u64::MAX,
            ;
        }
        let sold_wide: u128 = (offer.value as u128 * self.sell.note.value as u128)
            / (self.buy.value as u128);
        proof {
            let a = offer.value as int;
            let b = self.sell.note.value as int;
            let c = self.buy.value as int;
            assert(a * b <= c * b) by (nonlinear_arith)
                requires
                    a <= c,
                    0 <= b,
            ;
            assert((c * b) / c == b) by (nonlinear_arith)
                requires
                    0 < c,
            ;
            vstd::arithmetic::div_mod::lemma_div_is_ordered(a * b, c * b, c);
            assert(sold_wide == (a * b) / c);
            assert(sold_wide <= b);
        }
        let sold: u64 = sold_wide as u64;
        proof {
            let a = offer.value as int;
            let b = self.sell.note.value as int;
            let c = self.buy.value as int;
            assert(sold == self.spec_sold_value(offer.value));
            vstd::arithmetic::div_mod::lemma_fundamental_div_mod(a * b, c);
            assert(a * b == c * ((a * b) / c));
            assert(c * (sold as int) == (sold as int) * c) by (nonlinear_arith);
        }
        let returned_value: u64 = self.sell.note.value - sold;
        let buy_descriptor = token_descriptor(&self.buy.name);
        let bought = Note::new(
            buy_descriptor,
            self.sell.note.app_data_dynamic,
            offer.value,
            self.sell.note.nk_container,
            intent_nf,
            random_field_element(),
            true,
        );
        let returned = Note::new(
            self.sell.note.app_descriptor,
            self.sell.note.app_data_dynamic,
            returned_value,
            self.sell.note.nk_container,
            padding_nf,
            random_field_element(),
            true,
        );
        ([intent_note, padding_input], [bought, returned])
    }
}

/// The partial-fulfillment intent predicate: whoever consumes the intent
/// note must create a bought note of the asked token and a returned note
/// of the sold token, at the offered rate, both owed to the offerer.
#[derive(Clone, Debug)]
pub struct PartialFulfillmentIntentValidityPredicateCircuit {
    /// The public identity of the note this predicate instance governs.
    pub owned_note_pub_id: FieldElement,
    /// The input notes of the enclosing partial transaction.
    pub input_notes: [Note; NUM_NOTE],
    /// The output notes of the enclosing partial transaction.
    pub output_notes: [Note; NUM_NOTE],
    /// The offer being fulfilled.
    pub swap: Swap,
}

impl PartialFulfillmentIntentValidityPredicateCircuit {
    /// Whether the fulfillment side holds: the intent note is the first
    /// input, the bought note carries the asked token and the returned
    /// note the sold one, the rate is honored exactly, and both outputs
    /// are owed to the offerer's authorization data.
    pub open spec fn spec_fulfillment_satisfied(&self) -> bool {
        let bought = self.output_notes@[0];
        let returned = self.output_notes@[1];
        &&& self.input_notes@[0] == self.swap.spec_intent_note()
        &&& bought.app_descriptor@ == spec_token_descriptor(self.swap.buy.name@)
        &&& returned.app_descriptor == self.swap.sell.note.app_descriptor
        &&& bought.app_data_dynamic == self.swap.sell.note.app_data_dynamic
        &&& returned.app_data_dynamic == self.swap.sell.note.app_data_dynamic
        &&& returned.value <= self.swap.sell.note.value
        &&& bought.value <= self.swap.buy.value
        &&& bought.value * self.swap.sell.note.value == (self.swap.sell.note.value
            - returned.value) * self.swap.buy.value
    }

    /// Whether the predicate holds. The owned note decides the side: when
    /// it is the intent note's commitment, the intent note is being
    /// created and must be the first output; when it is the intent note's
    /// nullifier, the intent is being consumed and the fulfillment must
    /// honor the offer.
    pub open spec fn spec_satisfied(&self) -> bool {
        let intent = self.swap.spec_intent_note();
        &&& self.swap.sell.note.nk_container.is_key()
        &&& if self.owned_note_pub_id@ == intent.spec_commitment() {
            self.output_notes@[0] == intent
        } else if self.owned_note_pub_id@ == intent.spec_nullifier() {
            self.spec_fulfillment_satisfied()
        } else {
            false
        }
    }

    /// Checks the predicate on its witness.
    pub fn check(&self) -> (r: bool)
        ensures
            r == self.spec_satisfied(),
    {
        match self.swap.sell.note.nk_container {
            NullifierKeyContainer::Key(_) => {},
            NullifierKeyContainer::Commitment(_) => {
                return false;
            },
        }
        let intent_note = self.swap.create_intent_note();
        let intent_cm = intent_note.commitment().inner();
        let intent_nf = match intent_note.get_nf() {
            Some(nf) => nf,
            None => {
                proof {
                    assert(false);
                }
                Nullifier::from_field(FieldElement::zero())
            },
        };
        if self.owned_note_pub_id == intent_cm {
            return self.output_notes[0] == intent_note;
        }
        if !(self.owned_note_pub_id == intent_nf.inner()) {
            return false;
        }
        if !(self.input_notes[0] == intent_note) {
            return false;
        }
        let bought = self.output_notes[0];
        let returned = self.output_notes[1];
        let buy_descriptor = token_descriptor(&self.swap.buy.name);
        if !(bought.app_descriptor == buy_descriptor) {
            return false;
        }
        if !(returned.app_descriptor == self.swap.sell.note.app_descriptor) {
            return false;
        }
        if !(bought.app_data_dynamic == self.swap.sell.note.app_data_dynamic) {
            return false;
        }
        if !(returned.app_data_dynamic == self.swap.sell.note.app_data_dynamic) {
            return false;
        }
        if !(returned.value <= self.swap.sell.note.value) {
            return false;
        }
        if !(bought.value <= self.swap.buy.value) {
            return false;
        }
        proof {
            let s = self.swap.sell.note.value as int;
            assert(bought.value * s <= u128::MAX && (s - returned.value) * self.swap.buy.value
                <= u128::MAX) by (nonlinear_arith)
                requires
                    0 <= bought.value <= u64::MAX,
                    0 <= s <= u64::MAX,
                    0 <= returned.value <= s,
                    0 <= self.swap.buy.value <= u64::MAX,
            ;
        }
        let lhs: u128 = bought.value as u128 * self.swap.sell.note.value as u128;
        let rhs: u128 = (self.swap.sell.note.value - returned.value) as u128
            * self.swap.buy.value as u128;
        lhs == rhs
    }
}

} // verus!
