//! Composing partial transactions: a plain two-party token swap, and the
//! partially fulfillable intent flow where an offer, a counter-offer and a
//! solver's fulfillment combine into one balanced transaction.

use vstd::prelude::*;

use crate::error::TransactionError;
use crate::field::{
    poseidon2, poseidon2_of, random_field_element, random_scalar, CurvePoint, CurveScalar,
    FieldElement,
};
use crate::intent::{PartialFulfillmentIntentValidityPredicateCircuit, Swap};
use crate::merkle_tree::{Anchor, MerklePath};
use crate::note::Note;
use crate::nullifier::{Nullifier, NullifierKeyContainer};
use crate::shielded_ptx::{
    InputNoteProvingInfo, OutputNoteProvingInfo, ShieldedPartialTransaction,
};
use crate::signature::SignatureVerificationValidityPredicateCircuit;
use crate::token::{Token, TokenAuthorization};
use crate::transaction::{
    spec_ptx_delta, spec_shielded_delta, spec_transparent_delta, ShieldedPartialTxBundle,
    Transaction, TransparentPartialTxBundle,
};
use crate::vp::{TrivialValidityPredicateCircuit, VK_TAG};
use crate::vp_bytecode::ValidityPredicateInstance;

verus! {

/// The verifying-key digest of the token authorization predicate: the
/// signature-verification circuit's key, passed explicitly instead of a
/// process-wide constant so smaller setups can substitute their own.
pub fn compressed_token_auth_vk() -> (r: FieldElement)
    ensures
        r@ == poseidon2_of((VK_TAG, 0, 0, 0), FieldElement::spec_from_u64(2)@),
{
    let tag = FieldElement::from_u64(VK_TAG);
    let two = FieldElement::from_u64(2);
    poseidon2(&tag, &two)
}

/// Builds one party's swap side: spend a token note, create a token note
/// of another kind, and pad the free slots. Succeeds exactly when every
/// predicate accepts its witness; the authorization signature is checked
/// by the signature predicate.
pub fn create_token_swap_ptx(
    input_token: &Token,
    input_auth_sk: &CurveScalar,
    input_nk: NullifierKeyContainer,
    output_token: &Token,
    output_auth_pk: CurvePoint,
    output_nk_com: NullifierKeyContainer,
) -> (r: Result<ShieldedPartialTransaction, TransactionError>)
    requires
        input_nk.is_key(),
    ensures
        r matches Ok(ptx) ==> {
            &&& ptx.spec_proofs_valid()
            &&& ptx.spec_actions_consistent()
            &&& ptx.input_notes@[0].value == input_token.value
            &&& ptx.input_notes@[0].app_descriptor@ == crate::token::spec_token_descriptor(
                input_token.name@,
            )
            &&& ptx.input_notes@[1].value == 0
            &&& ptx.output_notes@[0].value == output_token.value
            &&& ptx.output_notes@[0].app_descriptor@ == crate::token::spec_token_descriptor(
                output_token.name@,
            )
            &&& ptx.output_notes@[1].value == 0
        },
{
    let auth_vk = compressed_token_auth_vk();
    let input_auth = TokenAuthorization::from_sk_vk(input_auth_sk, &auth_vk);

    let rho = Nullifier::from_field(random_field_element());
    let input_note = input_token.create_random_token_note(rho, input_nk, &input_auth);

    let input_note_nf = match input_note.note.get_nf() {
        Some(nf) => nf,
        None => {
            proof {
                assert(false);
            }
            Nullifier::from_field(FieldElement::zero())
        },
    };
    let output_auth = TokenAuthorization::new(output_auth_pk, auth_vk);
    let output_note = output_token.create_random_token_note(
        input_note_nf,
        output_nk_com,
        &output_auth,
    );

    let padding_input_note = Note::random_padding_input_note();
    let padding_input_note_nf = match padding_input_note.get_nf() {
        Some(nf) => nf,
        None => {
            proof {
                assert(false);
            }
            Nullifier::from_field(FieldElement::zero())
        },
    };
    let padding_output_note = Note::random_padding_output_note(padding_input_note_nf);

    let input_notes = [input_note.note, padding_input_note];
    let output_notes = [output_note.note, padding_output_note];

    let merkle_path = MerklePath::random();
    let anchor = Anchor::from_field(random_field_element());

    let input_vp = SignatureVerificationValidityPredicateCircuit::from_sk_and_sign(
        input_note_nf.inner(),
        input_notes,
        output_notes,
        auth_vk,
        input_auth_sk,
        FieldElement::zero(),
    );
    let input_info = InputNoteProvingInfo::new(
        input_note.note,
        merkle_path,
        None,
        ValidityPredicateInstance::SignatureVerification(input_vp),
        Vec::new(),
    );

    let output_cm = output_note.note.commitment();
    let output_vp = TrivialValidityPredicateCircuit::new(
        output_cm.inner(),
        input_notes,
        output_notes,
    );
    let output_info = OutputNoteProvingInfo::new(
        output_note.note,
        ValidityPredicateInstance::Trivial(output_vp),
        Vec::new(),
    );

    let padding_input_info = InputNoteProvingInfo::create_padding_note_proving_info(
        padding_input_note,
        MerklePath::random(),
        anchor,
        input_notes,
        output_notes,
    );
    let padding_output_info = OutputNoteProvingInfo::create_padding_note_proving_info(
        padding_output_note,
        input_notes,
        output_notes,
    );

    let mut inputs: Vec<InputNoteProvingInfo> = Vec::new();
    inputs.push(input_info);
    inputs.push(padding_input_info);
    let mut outputs: Vec<OutputNoteProvingInfo> = Vec::new();
    outputs.push(output_info);
    outputs.push(padding_output_info);
    ShieldedPartialTransaction::build(inputs, outputs)
}

/// Builds the offerer's side of a partially fulfillable swap: spend the
/// sold note and create the intent note that encodes the ask.
pub fn create_token_intent_ptx(
    sell: &Token,
    buy: Token,
    input_auth_sk: &CurveScalar,
) -> (r: Result<(ShieldedPartialTransaction, Swap), TransactionError>)
    ensures
        r matches Ok(p) ==> {
            &&& p.0.spec_proofs_valid()
            &&& p.0.spec_actions_consistent()
            &&& p.1.sell.note.nk_container.is_key()
            &&& p.1.sell.note.value == sell.value
            &&& p.1.sell.note.app_descriptor@ == crate::token::spec_token_descriptor(sell.name@)
            &&& p.1.buy.name@ == buy.name@
            &&& p.1.buy.value == buy.value
            &&& p.0.input_notes@[0] == p.1.sell.note
            &&& p.0.input_notes@[1].value == 0
            &&& p.0.output_notes@[0] == p.1.spec_intent_note()
            &&& p.0.output_notes@[1].value == 0
        },
{
    let auth_vk = compressed_token_auth_vk();
    let input_auth = TokenAuthorization::from_sk_vk(input_auth_sk, &auth_vk);
    let swap = Swap::random(sell, buy, input_auth);
    let intent_note = swap.create_intent_note();

    let padding_input_note = Note::random_padding_input_note();
    let padding_input_note_nf = match padding_input_note.get_nf() {
        Some(nf) => nf,
        None => {
            proof {
                assert(false);
            }
            Nullifier::from_field(FieldElement::zero())
        },
    };
    let padding_output_note = Note::random_padding_output_note(padding_input_note_nf);

    let input_notes = [swap.sell.note, padding_input_note];
    let output_notes = [intent_note, padding_output_note];

    let merkle_path = MerklePath::random();
    let anchor = Anchor::from_field(random_field_element());

    let sell_nf = match swap.sell.note.get_nf() {
        Some(nf) => nf,
        None => {
            proof {
                assert(false);
            }
            Nullifier::from_field(FieldElement::zero())
        },
    };
    let input_vp = SignatureVerificationValidityPredicateCircuit::from_sk_and_sign(
        sell_nf.inner(),
        input_notes,
        output_notes,
        auth_vk,
        input_auth_sk,
        FieldElement::zero(),
    );
    let input_info = InputNoteProvingInfo::new(
        swap.sell.note,
        merkle_path,
        None,
        ValidityPredicateInstance::SignatureVerification(input_vp),
        Vec::new(),
    );

    let intent_cm = intent_note.commitment();
    let intent_vp = PartialFulfillmentIntentValidityPredicateCircuit {
        owned_note_pub_id: intent_cm.inner(),
        input_notes,
        output_notes,
        swap: swap.clone(),
    };
    let intent_info = OutputNoteProvingInfo::new(
        intent_note,
        ValidityPredicateInstance::PartialFulfillmentIntent(intent_vp),
        Vec::new(),
    );

    let padding_input_info = InputNoteProvingInfo::create_padding_note_proving_info(
        padding_input_note,
        MerklePath::random(),
        anchor,
        input_notes,
        output_notes,
    );
    let padding_output_info = OutputNoteProvingInfo::create_padding_note_proving_info(
        padding_output_note,
        input_notes,
        output_notes,
    );

    let mut inputs: Vec<InputNoteProvingInfo> = Vec::new();
    inputs.push(input_info);
    inputs.push(padding_input_info);
    let mut outputs: Vec<OutputNoteProvingInfo> = Vec::new();
    outputs.push(intent_info);
    outputs.push(padding_output_info);
    match ShieldedPartialTransaction::build(inputs, outputs) {
        Ok(ptx) => Ok((ptx, swap)),
        Err(e) => Err(e),
    }
}

/// Builds the solver's side: consume the intent note and create the
/// bought and returned notes the offer is owed.
pub fn consume_token_intent_ptx(
    swap: &Swap,
    offer: &Token,
    _output_auth_pk: CurvePoint,
) -> (r: Result<ShieldedPartialTransaction, TransactionError>)
    requires
        swap.sell.note.nk_container.is_key(),
        offer.name@ == swap.buy.name@,
        0 < swap.buy.value,
        offer.value <= swap.buy.value,
        (offer.value * swap.sell.note.value) % (swap.buy.value as int) == 0,
    ensures
        r matches Ok(ptx) ==> {
            &&& ptx.spec_proofs_valid()
            &&& ptx.spec_actions_consistent()
            &&& ptx.input_notes@[0] == swap.spec_intent_note()
            &&& ptx.input_notes@[1].value == 0
            &&& ptx.output_notes@[0].value == offer.value
            &&& ptx.output_notes@[0].app_descriptor@ == crate::token::spec_token_descriptor(
                swap.buy.name@,
            )
            &&& ptx.output_notes@[1].app_descriptor == swap.sell.note.app_descriptor
            &&& ptx.output_notes@[1].value == swap.sell.note.value - swap.spec_sold_value(
                offer.value,
            )
        },
        // Every check on this path is pinned by the builders' contracts;
        // the only case no contract excludes is the intent note's public
        // identities colliding in the predicate's owned-note dispatch.
        swap.spec_intent_note().spec_nullifier() != swap.spec_intent_note().spec_commitment()
            ==> r is Ok,
{
    let intent_note = swap.create_intent_note();
    let offer_for_fill = Token::new(offer.name().as_str().to_owned(), offer.value());
    let (input_notes, output_notes) = swap.fill(intent_note, offer_for_fill);

    let merkle_path = MerklePath::random();
    let anchor = Anchor::from_field(random_field_element());

    let intent_nf = match intent_note.get_nf() {
        Some(nf) => nf,
        None => {
            proof {
                assert(false);
            }
            Nullifier::from_field(FieldElement::zero())
        },
    };
    let intent_vp = PartialFulfillmentIntentValidityPredicateCircuit {
        owned_note_pub_id: intent_nf.inner(),
        input_notes,
        output_notes,
        swap: swap.clone(),
    };
    let intent_info = InputNoteProvingInfo::new(
        intent_note,
        merkle_path,
        Some(anchor),
        ValidityPredicateInstance::PartialFulfillmentIntent(intent_vp),
        Vec::new(),
    );

    let bought_note = output_notes[0];
    let bought_cm = bought_note.commitment();
    let bought_vp = TrivialValidityPredicateCircuit::new(
        bought_cm.inner(),
        input_notes,
        output_notes,
    );
    let bought_info = OutputNoteProvingInfo::new(
        bought_note,
        ValidityPredicateInstance::Trivial(bought_vp),
        Vec::new(),
    );

    let padding_input_note = input_notes[1];
    let padding_input_info = InputNoteProvingInfo::create_padding_note_proving_info(
        padding_input_note,
        MerklePath::random(),
        anchor,
        input_notes,
        output_notes,
    );

    let returned_note = output_notes[1];
    let returned_cm = returned_note.commitment();
    let returned_vp = TrivialValidityPredicateCircuit::new(
        returned_cm.inner(),
        input_notes,
        output_notes,
    );
    let returned_info = OutputNoteProvingInfo::new(
        returned_note,
        ValidityPredicateInstance::Trivial(returned_vp),
        Vec::new(),
    );

    let mut inputs: Vec<InputNoteProvingInfo> = Vec::new();
    inputs.push(intent_info);
    inputs.push(padding_input_info);
    let mut outputs: Vec<OutputNoteProvingInfo> = Vec::new();
    outputs.push(bought_info);
    outputs.push(returned_info);
    let ghost ins = inputs@;
    let ghost outs = outputs@;
    let result = ShieldedPartialTransaction::build(inputs, outputs);
    proof {
        if swap.spec_intent_note().spec_nullifier() != swap.spec_intent_note().spec_commitment() {
            let intent = swap.spec_intent_note();
            assert(intent_note == intent);
            assert(intent.nk_container == swap.sell.note.nk_container);
            // The cloned swap inside the predicate agrees with the original
            // on every component the predicate reads.
            let cs = intent_vp.swap;
            assert(cs.sell.note == swap.sell.note);
            assert(crate::intent::spec_intent_descriptor(&cs) == crate::intent::spec_intent_descriptor(swap));
            assert(cs.spec_intent_note() == intent);
            // Slot checks.
            assert(crate::shielded_ptx::spec_slot_error(&ins[0], &outs[0]) is None) by {
                assert(ins[0].note == intent_note);
                assert(!intent_note.is_merkle_checked);
                assert(outs[0].note.rho@ == intent_note.spec_nullifier());
            }
            assert(crate::shielded_ptx::spec_slot_error(&ins[1], &outs[1]) is None) by {
                assert(ins[1].note == input_notes@[1]);
                assert(!input_notes@[1].is_merkle_checked);
                assert(outs[1].note.rho@ == input_notes@[1].spec_nullifier());
            }
            // Spendability of the shared witness arrays.
            assert(crate::vp::spec_inputs_spendable(input_notes)) by {
                assert(input_notes@[0].nk_container.is_key());
                assert(input_notes@[1].nk_container.is_key());
            }
            // The intent predicate is satisfied on the fulfillment side.
            assert(intent_vp.spec_satisfied()) by {
                assert(intent_vp.owned_note_pub_id@ == intent.spec_nullifier());
                assert(intent_vp.owned_note_pub_id@ != intent.spec_commitment());
                assert(intent_vp.input_notes@[0] == intent);
                vstd::arithmetic::mul::lemma_mul_nonnegative(
                    offer_for_fill.value as int,
                    swap.sell.note.value as int,
                );
                vstd::arithmetic::div_mod::lemma_div_pos_is_pos(
                    offer_for_fill.value * swap.sell.note.value,
                    swap.buy.value as int,
                );
                assert(output_notes@[1].value <= cs.sell.note.value);
                assert(output_notes@[0].value <= cs.buy.value);
                assert(intent_vp.spec_fulfillment_satisfied());
            }
            // Every predicate set on this path accepts.
            assert(ins[0].application_vp.spec_proof_error() is None);
            assert(crate::shielded_ptx::spec_first_instance_error(ins[0].dynamic_vps@, 0) is None);
            assert(ins[1].application_vp.spec_proof_error() is None);
            assert(crate::shielded_ptx::spec_first_instance_error(ins[1].dynamic_vps@, 0) is None);
            assert(outs[0].application_vp.spec_proof_error() is None);
            assert(crate::shielded_ptx::spec_first_instance_error(outs[0].dynamic_vps@, 0) is None);
            assert(outs[1].application_vp.spec_proof_error() is None);
            assert(crate::shielded_ptx::spec_first_instance_error(outs[1].dynamic_vps@, 0) is None);
            assert(crate::shielded_ptx::spec_build_error(ins, outs) is None);
        }
    }
    result
}

/// The three-party composition: an offer of two units of one token asking
/// ten of another, a counter-party moving five of the asked token against
/// one of the offered, and a solver fulfilling the intent partially and
/// returning the remainder. On success the result holds exactly the three
/// partial transactions, no transparent moves, every predicate proof
/// internally consistent, and every application's net sum zero.
pub fn create_token_swap_transaction() -> (r: Result<Transaction, TransactionError>)
    ensures
        r matches Ok(tx) ==> {
            &&& tx.shielded_bundle.partial_txs@.len() == 3
            &&& tx.transparent_bundle.partial_txs@.len() == 0
            &&& tx.spec_proofs_valid()
            &&& tx.spec_balanced()
        },
{
    let alice_auth_sk = random_scalar();
    let alice_auth_pk = crate::field::base_mul(&alice_auth_sk);
    let sell = Token::new("btc".to_owned(), 2u64);
    let buy = Token::new("eth".to_owned(), 10u64);
    let (alice_ptx, swap) = match create_token_intent_ptx(&sell, buy, &alice_auth_sk) {
        Ok(p) => p,
        Err(e) => {
            return Err(e);
        },
    };

    let bob_auth_sk = random_scalar();
    let bob_auth_pk = crate::field::base_mul(&bob_auth_sk);
    let bob_nk = NullifierKeyContainer::Key(random_field_element());
    let offer = Token::new("eth".to_owned(), 5u64);
    let returned = Token::new("btc".to_owned(), 1u64);

    let bob_nk_com = bob_nk.to_commitment();
    let bob_ptx = match create_token_swap_ptx(
        &offer,
        &bob_auth_sk,
        bob_nk,
        &returned,
        bob_auth_pk,
        bob_nk_com,
    ) {
        Ok(p) => p,
        Err(e) => {
            return Err(e);
        },
    };

    proof {
        assert((offer.value * swap.sell.note.value) % (swap.buy.value as int) == 0);
    }
    let solver_ptx = match consume_token_intent_ptx(&swap, &offer, alice_auth_pk) {
        Ok(p) => p,
        Err(e) => {
            return Err(e);
        },
    };

    let ghost ga = alice_ptx;
    let ghost gb = bob_ptx;
    let ghost gs = solver_ptx;
    let mut ptxs: Vec<ShieldedPartialTransaction> = Vec::new();
    ptxs.push(alice_ptx);
    ptxs.push(bob_ptx);
    ptxs.push(solver_ptx);
    let shielded_tx_bundle = ShieldedPartialTxBundle::new(ptxs);
    let transparent_ptx_bundle = TransparentPartialTxBundle::default();
    let tx = Transaction::build(shielded_tx_bundle, transparent_ptx_bundle);
    proof {
        let s = tx.shielded_bundle.partial_txs@;
        assert(s.len() == 3);
        assert(s[0] == ga);
        assert(s[1] == gb);
        assert(s[2] == gs);
        assert(tx.spec_proofs_valid()) by {
            assert forall|i: int|
                0 <= i < s.len() implies (#[trigger] s[i]).spec_proofs_valid() by {
                if i == 0 {
                    assert(s[i] == ga);
                } else if i == 1 {
                    assert(s[i] == gb);
                } else {
                    assert(s[i] == gs);
                }
            }
        }
        // Per-application cancellation: the sold token moves 2 in and
        // 1 + 1 out, the asked token 5 in and 5 out, and the intent
        // application 1 out and 1 in; padding and zero-value notes
        // contribute nothing.
        let intent = swap.spec_intent_note();
        assert(intent.value == 1);
        assert(ga.input_notes@[0].app_descriptor@ == crate::token::spec_token_descriptor(
            "btc"@,
        ));
        assert(gb.output_notes@[0].app_descriptor@ == crate::token::spec_token_descriptor(
            "btc"@,
        ));
        assert(gs.output_notes@[1].app_descriptor@ == crate::token::spec_token_descriptor(
            "btc"@,
        ));
        assert(gb.input_notes@[0].app_descriptor@ == crate::token::spec_token_descriptor(
            "eth"@,
        ));
        assert(gs.output_notes@[0].app_descriptor@ == crate::token::spec_token_descriptor(
            "eth"@,
        ));
        assert(ga.output_notes@[0] == intent);
        assert(gs.input_notes@[0] == intent);
        assert(ga.input_notes@[0].value == 2);
        assert(gb.input_notes@[0].value == 5);
        assert(gb.output_notes@[0].value == 1);
        assert(gs.output_notes@[0].value == 5);
        assert(swap.spec_sold_value(5) == 1);
        assert(gs.output_notes@[1].value == 1);
        assert(tx.spec_balanced()) by {
            assert forall|x: crate::field::Limbs| tx.spec_delta(x) == 0 by {
                assert(spec_shielded_delta(s, x, 3) == 0);
                assert(spec_shielded_delta(s, x, 2) == spec_ptx_delta(&s[2], x)
                    + spec_shielded_delta(s, x, 3));
                assert(spec_shielded_delta(s, x, 1) == spec_ptx_delta(&s[1], x)
                    + spec_shielded_delta(s, x, 2));
                assert(spec_shielded_delta(s, x, 0) == spec_ptx_delta(&s[0], x)
                    + spec_shielded_delta(s, x, 1));
                assert(spec_transparent_delta(tx.transparent_bundle.partial_txs@, x, 0) == 0);
            }
        }
    }
    Ok(tx)
}

} // verus!
