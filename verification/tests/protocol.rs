//! End-to-end tests of the protocol core: primitives, Merkle paths, the
//! note codec, predicate dispatch, balancing, and the swap scenario.

use taiga::action::ActionInfo;
use taiga::codec::{decode_note, encode_note};
use taiga::error::TransactionError;
use taiga::field::{
    fp_add, fp_mul, random_field_element, random_scalar, CurveScalar, FieldElement,
};
use taiga::merkle_tree::{build_path, current_root, MerklePath};
use taiga::note::{derive_psi, Note};
use taiga::nullifier::{Nullifier, NullifierKeyContainer};
use taiga::shielded_ptx::{
    InputNoteProvingInfo, OutputNoteProvingInfo, ShieldedPartialTransaction,
};
use taiga::signature::{auth_encoding, SchnorrSignature, SignatureVerificationValidityPredicateCircuit};
use taiga::token::{token_descriptor, Token, TokenAuthorization};
use taiga::token_swap::{
    compressed_token_auth_vk, create_token_swap_ptx, create_token_swap_transaction,
};
use taiga::transaction::{
    ShieldedPartialTxBundle, Transaction, TransparentPartialTransaction,
    TransparentPartialTxBundle,
};
use taiga::value_commitment::NetValueCommitment;
use taiga::vp::{BalanceValidityPredicate, TrivialValidityPredicateCircuit};
use taiga::vp_bytecode::{
    ApplicationByteCode, ValidityPredicateByteCode, ValidityPredicateInstance,
    ValidityPredicateRepresentation,
};

fn fe(v: u64) -> FieldElement {
    FieldElement::from_u64(v)
}

fn simple_note(app: u64, value: u64, rho: u64, keyed: bool) -> Note {
    let nk = if keyed {
        NullifierKeyContainer::Key(fe(7))
    } else {
        NullifierKeyContainer::Commitment(fe(8))
    };
    Note::new(fe(app), fe(100 + app), value, nk, Nullifier::from_field(fe(rho)), fe(42 + rho), true)
}

/// A (input, output) pair where the output is chained to the input's
/// nullifier and carries the same application and value.
fn chained_pair(app: u64, value: u64, rho: u64, checked: bool) -> (Note, Note) {
    let mut input = simple_note(app, value, rho, true);
    input.is_merkle_checked = checked;
    let input = Note::new(
        input.app_descriptor,
        input.app_data_dynamic,
        input.value,
        input.nk_container,
        input.rho,
        input.random_seed,
        checked,
    );
    let nf = input.get_nf().unwrap();
    let output = Note::new(
        fe(app),
        fe(100 + app),
        value,
        NullifierKeyContainer::Commitment(fe(8)),
        nf,
        fe(77 + rho),
        checked,
    );
    (input, output)
}

/// Builds a self-balanced partial transaction over one application, with
/// trivial predicates everywhere and no anchors to check.
fn balanced_ptx(app: u64, value: u64, rho: u64) -> ShieldedPartialTransaction {
    let (input0, output0) = chained_pair(app, value, rho, false);
    let padding_in = Note::random_padding_input_note();
    let padding_out = Note::random_padding_output_note(padding_in.get_nf().unwrap());
    let inputs = [input0, padding_in];
    let outputs = [output0, padding_out];
    let in_info0 = InputNoteProvingInfo::new(
        input0,
        MerklePath::random(),
        None,
        ValidityPredicateInstance::Trivial(TrivialValidityPredicateCircuit::new(
            input0.get_nf().unwrap().inner(),
            inputs,
            outputs,
        )),
        Vec::new(),
    );
    let in_info1 = InputNoteProvingInfo::create_padding_note_proving_info(
        padding_in,
        MerklePath::random(),
        taiga::merkle_tree::Anchor::from_field(random_field_element()),
        inputs,
        outputs,
    );
    let out_info0 = OutputNoteProvingInfo::new(
        output0,
        ValidityPredicateInstance::Trivial(TrivialValidityPredicateCircuit::new(
            output0.commitment().inner(),
            inputs,
            outputs,
        )),
        Vec::new(),
    );
    let out_info1 = OutputNoteProvingInfo::create_padding_note_proving_info(
        padding_out,
        inputs,
        outputs,
    );
    ShieldedPartialTransaction::build(
        vec![in_info0, in_info1],
        vec![out_info0, out_info1],
    )
    .unwrap()
}

#[test]
fn test_nullifier_deterministic() {
    let note = simple_note(1, 10, 3, true);
    let nf1 = note.get_nf().unwrap();
    let nf2 = note.get_nf().unwrap();
    assert_eq!(nf1, nf2);

    let mut other = simple_note(1, 10, 3, true);
    other.value = 11;
    assert_ne!(other.get_nf().unwrap(), nf1);

    let mut other2 = simple_note(1, 10, 3, true);
    other2.app_descriptor = fe(2);
    assert_ne!(other2.get_nf().unwrap(), nf1);
}

#[test]
fn test_nullifier_requires_key() {
    let note = simple_note(1, 10, 3, false);
    assert!(note.get_nf().is_none());
}

#[test]
fn test_psi_derivation_mixes_inputs() {
    let seed = fe(5);
    let rho = fe(6);
    let psi = derive_psi(&seed, &rho);
    assert_ne!(psi, seed);
    assert_ne!(psi, rho);
    assert_eq!(psi, derive_psi(&seed, &rho));
}

#[test]
fn test_commitment_differs_from_fields() {
    let note = simple_note(1, 10, 3, true);
    let cm = note.commitment();
    assert_ne!(cm.inner(), note.app_descriptor);
    assert_ne!(cm.inner(), note.rho.inner());
}

#[test]
fn test_merkle_path_recomputes_current_root() {
    let leaves: Vec<FieldElement> = (0..5u64).map(|i| simple_note(1, i, i, true).commitment().inner()).collect();
    let root = current_root(&leaves);
    for i in 0..5usize {
        let path = build_path(&leaves, i);
        assert_eq!(path.root(&leaves[i]).inner(), root.inner());
    }
}

#[test]
fn test_merkle_root_depends_on_leaf() {
    let leaves: Vec<FieldElement> = vec![fe(1), fe(2), fe(3)];
    let path = build_path(&leaves, 1);
    let good = path.root(&leaves[1]);
    let bad = path.root(&fe(99));
    assert_ne!(good.inner(), bad.inner());
    assert_ne!(good.inner(), leaves[1]);
}

#[test]
fn test_note_codec_roundtrip() {
    let note = simple_note(4, 123, 9, true);
    let bytes = encode_note(&note);
    assert_eq!(bytes.len(), 203);
    let back = decode_note(&bytes).unwrap();
    assert_eq!(back, note);
    assert_eq!(back.commitment(), note.commitment());

    let note2 = simple_note(4, 123, 9, false);
    let back2 = decode_note(&encode_note(&note2)).unwrap();
    assert_eq!(back2, note2);
}

#[test]
fn test_note_codec_rejects_malformed() {
    let note = simple_note(4, 123, 9, true);
    let mut bytes = encode_note(&note);
    bytes[0] = 2;
    assert!(decode_note(&bytes).is_none());
    let short = vec![1u8, 2, 3];
    assert!(decode_note(&short).is_none());
}

#[test]
fn test_field_arithmetic_wrappers() {
    assert_eq!(fp_add(&fe(2), &fe(3)), fe(5));
    assert_eq!(fp_mul(&fe(2), &fe(3)), fe(6));
}

#[test]
fn test_schnorr_sign_and_verify() {
    let sk = random_scalar();
    let message = vec![fe(1), fe(2), fe(3), fe(4)];
    let sig = SchnorrSignature::sign(&sk, &message);
    assert!(sig.verify(&message));
    let tampered = vec![fe(1), fe(2), fe(3), fe(5)];
    assert!(!sig.verify(&tampered));
}

#[test]
fn test_halo2_sig_verification_vp_circuit() {
    let sk = random_scalar();
    let auth_vk = random_field_element();
    let auth = TokenAuthorization::from_sk_vk(&sk, &auth_vk);
    let receiver_vk = FieldElement::zero();

    let mut input0 = simple_note(1, 10, 3, true);
    input0.app_data_dynamic = auth_encoding(&auth.pk, &auth_vk, &receiver_vk);
    let input1 = simple_note(1, 4, 5, true);
    let output0 = simple_note(1, 10, 6, false);
    let output1 = simple_note(1, 4, 7, false);
    let input_notes = [input0, input1];
    let output_notes = [output0, output1];
    let owned = input0.get_nf().unwrap().inner();

    let circuit = SignatureVerificationValidityPredicateCircuit::from_sk_and_sign(
        owned,
        input_notes,
        output_notes,
        auth_vk,
        &sk,
        receiver_vk,
    );
    assert!(circuit.check());

    // A circuit signed with a key that does not match the committed
    // authorization must be rejected.
    let other_sk = random_scalar();
    let forged = SignatureVerificationValidityPredicateCircuit::from_sk_and_sign(
        owned,
        input_notes,
        output_notes,
        auth_vk,
        &other_sk,
        receiver_vk,
    );
    assert!(!forged.check());
}

#[test]
fn test_balance_vp_example() {
    let input_notes = [simple_note(1, 7, 1, true), simple_note(1, 5, 2, true)];
    // Swap the two values between the outputs: still balanced.
    let output_notes = [simple_note(1, 5, 3, true), simple_note(1, 7, 4, true)];
    let balance_vp = BalanceValidityPredicate::new(input_notes, output_notes);
    assert!(balance_vp.check());

    let unbalanced_outputs = [simple_note(1, 5, 3, true), simple_note(1, 8, 4, true)];
    let bad = BalanceValidityPredicate::new(input_notes, unbalanced_outputs);
    assert!(!bad.check());

    let foreign_outputs = [simple_note(2, 5, 3, true), simple_note(2, 7, 4, true)];
    let mixed = BalanceValidityPredicate::new(input_notes, foreign_outputs);
    assert!(!mixed.check());
}

#[test]
fn test_action_chaining() {
    let info = ActionInfo::dummy();
    let (action, output_note) = info.build(fe(11));
    assert!(action.chains_to(&output_note));

    let stranger = simple_note(9, 1, 1, false);
    assert!(!action.chains_to(&stranger));
}

#[test]
fn test_ptx_build_rejects_broken_chaining() {
    let (input0, _) = chained_pair(1, 10, 3, false);
    // An output whose rho is not the spend's nullifier.
    let rogue = simple_note(1, 10, 99, false);
    let padding_in = Note::random_padding_input_note();
    let padding_out = Note::random_padding_output_note(padding_in.get_nf().unwrap());
    let inputs = [input0, padding_in];
    let outputs = [rogue, padding_out];
    let r = ShieldedPartialTransaction::build(
        vec![
            InputNoteProvingInfo::new(
                input0,
                MerklePath::random(),
                None,
                ValidityPredicateInstance::Trivial(TrivialValidityPredicateCircuit::new(
                    input0.get_nf().unwrap().inner(),
                    inputs,
                    outputs,
                )),
                Vec::new(),
            ),
            InputNoteProvingInfo::create_padding_note_proving_info(
                padding_in,
                MerklePath::random(),
                taiga::merkle_tree::Anchor::from_field(random_field_element()),
                inputs,
                outputs,
            ),
        ],
        vec![
            OutputNoteProvingInfo::new(
                rogue,
                ValidityPredicateInstance::Trivial(TrivialValidityPredicateCircuit::new(
                    rogue.commitment().inner(),
                    inputs,
                    outputs,
                )),
                Vec::new(),
            ),
            OutputNoteProvingInfo::create_padding_note_proving_info(padding_out, inputs, outputs),
        ],
    );
    assert_eq!(r.err(), Some(TransactionError::WitnessError));
}

#[test]
fn test_ptx_build_rejects_wrong_anchor() {
    let (input, output) = chained_pair(1, 10, 3, true);
    let padding_in = Note::random_padding_input_note();
    let padding_out = Note::random_padding_output_note(padding_in.get_nf().unwrap());
    let inputs = [input, padding_in];
    let outputs = [output, padding_out];
    // The input note is Merkle checked, but the supplied anchor does not
    // match the root recomputed from the (random) path.
    let r = ShieldedPartialTransaction::build(
        vec![
            InputNoteProvingInfo::new(
                input,
                MerklePath::random(),
                Some(taiga::merkle_tree::Anchor::from_field(fe(1))),
                ValidityPredicateInstance::Trivial(TrivialValidityPredicateCircuit::new(
                    input.get_nf().unwrap().inner(),
                    inputs,
                    outputs,
                )),
                Vec::new(),
            ),
            InputNoteProvingInfo::create_padding_note_proving_info(
                padding_in,
                MerklePath::random(),
                taiga::merkle_tree::Anchor::from_field(random_field_element()),
                inputs,
                outputs,
            ),
        ],
        vec![
            OutputNoteProvingInfo::new(
                output,
                ValidityPredicateInstance::Trivial(TrivialValidityPredicateCircuit::new(
                    output.commitment().inner(),
                    inputs,
                    outputs,
                )),
                Vec::new(),
            ),
            OutputNoteProvingInfo::create_padding_note_proving_info(padding_out, inputs, outputs),
        ],
    );
    assert_eq!(r.err(), Some(TransactionError::MerkleInconsistencyError));
}

#[test]
fn test_single_app_transaction_balances() {
    let ptx = balanced_ptx(1, 10, 3);
    let tx = Transaction::build(
        ShieldedPartialTxBundle::new(vec![ptx]),
        TransparentPartialTxBundle::default(),
    );
    assert!(tx.execute().is_ok());
}

#[test]
fn test_perturbed_output_value_unbalances() {
    let ptx = balanced_ptx(1, 10, 3);
    let mut tampered = ptx.clone();
    tampered.output_notes[0].value += 1;
    let tx = Transaction::build(
        ShieldedPartialTxBundle::new(vec![tampered]),
        TransparentPartialTxBundle::default(),
    );
    assert_eq!(tx.execute().err(), Some(TransactionError::UnbalancedTransactionError));
}

#[test]
fn test_padding_idempotent() {
    // With padding notes in the free slots.
    let with_padding = balanced_ptx(1, 10, 3);
    let tx1 = Transaction::build(
        ShieldedPartialTxBundle::new(vec![with_padding]),
        TransparentPartialTxBundle::default(),
    );
    // With genuine zero-value notes in the free slots instead.
    let (in0, out0) = chained_pair(1, 10, 3, false);
    let (zin, zout) = chained_pair(2, 0, 8, false);
    let inputs = [in0, zin];
    let outputs = [out0, zout];
    let mk = |owned: FieldElement| {
        ValidityPredicateInstance::Trivial(TrivialValidityPredicateCircuit::new(
            owned, inputs, outputs,
        ))
    };
    let genuine = ShieldedPartialTransaction::build(
        vec![
            InputNoteProvingInfo::new(
                in0,
                MerklePath::random(),
                None,
                mk(in0.get_nf().unwrap().inner()),
                Vec::new(),
            ),
            InputNoteProvingInfo::new(
                zin,
                MerklePath::random(),
                None,
                mk(zin.get_nf().unwrap().inner()),
                Vec::new(),
            ),
        ],
        vec![
            OutputNoteProvingInfo::new(out0, mk(out0.commitment().inner()), Vec::new()),
            OutputNoteProvingInfo::new(zout, mk(zout.commitment().inner()), Vec::new()),
        ],
    )
    .unwrap();
    let tx2 = Transaction::build(
        ShieldedPartialTxBundle::new(vec![genuine]),
        TransparentPartialTxBundle::default(),
    );
    // Same aggregate outcome either way.
    assert_eq!(tx1.execute().is_ok(), tx2.execute().is_ok());
    assert!(tx2.execute().is_ok());
}

#[test]
fn test_duplicate_nullifier_rejected() {
    let ptx = balanced_ptx(1, 10, 3);
    let twin = ptx.clone();
    let tx = Transaction::build(
        ShieldedPartialTxBundle::new(vec![ptx, twin]),
        TransparentPartialTxBundle::default(),
    );
    assert_eq!(tx.execute().err(), Some(TransactionError::DuplicateNullifierError));
}

#[test]
fn test_tampered_proof_rejected() {
    let ptx = balanced_ptx(1, 10, 3);
    let mut tampered = ptx.clone();
    tampered.input_proofs[0].app_vp_verifying_info.instance.push(fe(123));
    let tx = Transaction::build(
        ShieldedPartialTxBundle::new(vec![tampered]),
        TransparentPartialTxBundle::default(),
    );
    assert_eq!(tx.execute().err(), Some(TransactionError::ProofVerificationError));
}

#[test]
fn test_transparent_moves_balance() {
    let moves = vec![
        TransparentPartialTransaction { app_descriptor: fe(1), input_value: 4, output_value: 1 },
        TransparentPartialTransaction { app_descriptor: fe(1), input_value: 0, output_value: 3 },
    ];
    let tx = Transaction::build(
        ShieldedPartialTxBundle::new(Vec::new()),
        TransparentPartialTxBundle::new(moves),
    );
    assert!(tx.execute().is_ok());

    let unbalanced = vec![TransparentPartialTransaction {
        app_descriptor: fe(1),
        input_value: 4,
        output_value: 1,
    }];
    let tx2 = Transaction::build(
        ShieldedPartialTxBundle::new(Vec::new()),
        TransparentPartialTxBundle::new(unbalanced),
    );
    assert_eq!(tx2.execute().err(), Some(TransactionError::UnbalancedTransactionError));
}

#[test]
fn test_token_swap_ptx_structure() {
    let sk = random_scalar();
    let nk = NullifierKeyContainer::Key(random_field_element());
    let pk = taiga::field::base_mul(&random_scalar());
    let btc = Token::new("btc".to_string(), 3);
    let eth = Token::new("eth".to_string(), 3);
    let ptx = create_token_swap_ptx(&btc, &sk, nk, &eth, pk, nk.to_commitment()).unwrap();
    assert_eq!(ptx.input_notes[0].value, 3);
    assert_eq!(ptx.output_notes[0].value, 3);
    assert_eq!(ptx.input_notes[0].app_descriptor, token_descriptor(&"btc".to_string()));
    assert_eq!(ptx.output_notes[0].app_descriptor, token_descriptor(&"eth".to_string()));
}

#[test]
fn test_partial_fulfillment_token_swap_tx() {
    let tx = create_token_swap_transaction().unwrap();
    assert!(tx.execute().is_ok());

    // Altering the returned amount by one unit must unbalance the whole
    // transaction.
    let mut altered = tx.clone();
    altered.shielded_bundle.partial_txs[2].output_notes[1].value += 1;
    assert_eq!(
        altered.execute().err(),
        Some(TransactionError::UnbalancedTransactionError)
    );
}

#[test]
fn test_value_commitment_of_equal_notes_is_identity() {
    let note = simple_note(1, 10, 3, true);
    let zero_blind = CurveScalar::from_u64(0);
    let nvc = NetValueCommitment::new(&note, &note, &zero_blind);
    assert!(nvc.0.is_identity());
    assert_eq!(nvc.get_x(), FieldElement::zero());
    assert_eq!(nvc.get_y(), FieldElement::zero());

    let other = simple_note(2, 11, 4, true);
    let nvc2 = NetValueCommitment::new(&note, &other, &zero_blind);
    assert!(!nvc2.0.is_identity());
}

#[test]
fn test_token_descriptors_distinct() {
    let btc = token_descriptor(&"btc".to_string());
    let eth = token_descriptor(&"eth".to_string());
    assert_ne!(btc, eth);
    assert_ne!(btc, FieldElement::zero());
    assert_eq!(compressed_token_auth_vk(), compressed_token_auth_vk());
}

fn portable_circuit_payload(constraints: &[(u8, u64, u64, u64)]) -> Vec<u8> {
    let mut payload = vec![1u8];
    payload.extend_from_slice(&(constraints.len() as u64).to_le_bytes());
    for (op, a, b, c) in constraints {
        payload.push(*op);
        payload.extend_from_slice(&a.to_le_bytes());
        payload.extend_from_slice(&b.to_le_bytes());
        payload.extend_from_slice(&c.to_le_bytes());
    }
    payload
}

fn portable_witness(values: &[u64]) -> Vec<u8> {
    let mut w = Vec::new();
    w.extend_from_slice(&(values.len() as u64).to_le_bytes());
    for v in values {
        w.extend_from_slice(&v.to_le_bytes());
        w.extend_from_slice(&[0u8; 24]);
    }
    w
}

#[test]
fn test_portable_bytecode_dispatch() {
    // 2 + 3 == 5 and 2 * 3 == 6.
    let payload = portable_circuit_payload(&[(0, 0, 1, 2), (1, 0, 1, 3)]);
    let witness = portable_witness(&[2, 3, 5, 6]);
    let bc = ValidityPredicateByteCode::new(
        ValidityPredicateRepresentation::VampIR(payload.clone()),
        witness,
    );
    let info = bc.generate_proof().unwrap();
    assert!(info.verify());
    assert_eq!(info.instance.len(), 4);

    // An unsatisfied constraint is a witness error.
    let bad_witness = portable_witness(&[2, 3, 9, 6]);
    let bc2 = ValidityPredicateByteCode::new(
        ValidityPredicateRepresentation::VampIR(payload),
        bad_witness,
    );
    assert_eq!(bc2.generate_proof().err(), Some(TransactionError::WitnessError));

    // A malformed description cannot be compiled.
    let mut bad_payload = portable_circuit_payload(&[(0, 0, 1, 2)]);
    bad_payload[0] = 9;
    let bc3 = ValidityPredicateByteCode::new(
        ValidityPredicateRepresentation::VampIR(bad_payload),
        portable_witness(&[2, 3, 5]),
    );
    assert_eq!(
        bc3.generate_proof().err(),
        Some(TransactionError::CircuitCompilationError)
    );
}

#[test]
fn test_trivial_bytecode_roundtrip() {
    let (input0, output0) = chained_pair(1, 10, 3, true);
    let input1 = simple_note(1, 4, 5, true);
    let output1 = simple_note(1, 4, 6, false);
    let owned = input0.get_nf().unwrap().inner();
    let mut witness = Vec::new();
    for limb in [owned.l0, owned.l1, owned.l2, owned.l3] {
        witness.extend_from_slice(&limb.to_le_bytes());
    }
    for n in [input0, input1, output0, output1] {
        witness.extend_from_slice(&encode_note(&n));
    }
    let bc = ValidityPredicateByteCode::new(ValidityPredicateRepresentation::Trivial, witness);
    let app = ApplicationByteCode::new(bc, Vec::new());
    let set = app.generate_proofs().unwrap();
    assert!(set.app_vp_verifying_info.verify());
    assert_eq!(set.app_vp_verifying_info.instance.len(), 5);
    assert_eq!(set.app_vp_verifying_info.instance[1], input0.get_nf().unwrap().inner());

    // Truncated witness bytes are rejected before any proof is attempted.
    let bad = ValidityPredicateByteCode::new(
        ValidityPredicateRepresentation::Trivial,
        vec![0u8; 10],
    );
    assert_eq!(bad.generate_proof().err(), Some(TransactionError::WitnessError));
}

#[test]
fn test_bytecode_serialization_roundtrip() {
    let payload = portable_circuit_payload(&[(0, 0, 1, 2)]);
    let bc = ValidityPredicateByteCode::new(
        ValidityPredicateRepresentation::VampIR(payload.clone()),
        portable_witness(&[2, 3, 5]),
    );
    let bytes = bc.to_bytes();
    let back = ValidityPredicateByteCode::from_bytes(&bytes).unwrap();
    assert_eq!(back.to_bytes(), bytes);
    match back.circuit {
        ValidityPredicateRepresentation::VampIR(p) => assert_eq!(p, payload),
        _ => panic!("representation tag lost in the round trip"),
    }
    assert_eq!(back.inputs, bc.inputs);

    let trivial = ValidityPredicateByteCode::new(
        ValidityPredicateRepresentation::Trivial,
        vec![9u8, 8, 7],
    );
    let tb = trivial.to_bytes();
    let back2 = ValidityPredicateByteCode::from_bytes(&tb).unwrap();
    assert_eq!(back2.to_bytes(), tb);
    assert_eq!(back2.inputs, vec![9u8, 8, 7]);

    // A bad tag or a broken length frame is rejected.
    let mut bad = tb.clone();
    bad[0] = 7;
    assert!(ValidityPredicateByteCode::from_bytes(&bad).is_none());
    let mut bad2 = tb;
    bad2.pop();
    assert!(ValidityPredicateByteCode::from_bytes(&bad2).is_none());
}

#[test]
fn test_application_bytecode_serialization_roundtrip() {
    let gov = ValidityPredicateByteCode::new(
        ValidityPredicateRepresentation::Trivial,
        vec![1u8, 2, 3],
    );
    let aux = ValidityPredicateByteCode::new(
        ValidityPredicateRepresentation::VampIR(portable_circuit_payload(&[(1, 0, 0, 1)])),
        portable_witness(&[4, 16]),
    );
    let app = ApplicationByteCode::new(gov, vec![aux]);
    let bytes = app.to_bytes();
    let back = ApplicationByteCode::from_bytes(&bytes).unwrap();
    assert_eq!(back.to_bytes(), bytes);
    assert_eq!(back.dynamic_vp_bytecode.len(), 1);
    assert_eq!(back.app_vp_bytecode.inputs, vec![1u8, 2, 3]);

    // Trailing bytes beyond the declared chunks are rejected.
    let mut bad = bytes.clone();
    bad.push(0);
    assert!(ApplicationByteCode::from_bytes(&bad).is_none());
    // A truncated stream is rejected.
    let mut bad2 = bytes;
    bad2.pop();
    assert!(ApplicationByteCode::from_bytes(&bad2).is_none());
}
