//! Shielded partial transactions: a fixed-arity bundle of spends and
//! outputs, each guarded by validity predicates, built with fail-fast
//! witness checking and anchor consistency.

use vstd::prelude::*;

use crate::action::Action;
use crate::error::TransactionError;
use crate::merkle_tree::{spec_root, Anchor, MerklePath};
use crate::note::Note;
use crate::nullifier::Nullifier;
use crate::vp::{views_of, TrivialValidityPredicateCircuit, VPVerifyingInfo};
use crate::vp_bytecode::{NoteVPVerifyingInfoSet, ValidityPredicateInstance};
use crate::field::FieldElement;
use crate::NUM_NOTE;

verus! {

/// Everything needed to prove one spend: the note, its path and anchor,
/// and the predicates guarding it.
#[derive(Clone, Debug)]
pub struct InputNoteProvingInfo {
    /// The note being spent.
    pub note: Note,
    /// The authentication path of the note's commitment.
    pub merkle_path: MerklePath,
    /// The anchor to prove membership against; when absent, the root
    /// recomputed from the path is used.
    pub anchor: Option<Anchor>,
    /// The governing predicate.
    pub application_vp: ValidityPredicateInstance,
    /// The auxiliary predicates.
    pub dynamic_vps: Vec<ValidityPredicateInstance>,
}

impl InputNoteProvingInfo {
    /// Bundles a spend with its proving material.
    pub fn new(
        note: Note,
        merkle_path: MerklePath,
        anchor: Option<Anchor>,
        application_vp: ValidityPredicateInstance,
        dynamic_vps: Vec<ValidityPredicateInstance>,
    ) -> (r: InputNoteProvingInfo)
        ensures
            r.note == note,
            r.merkle_path == merkle_path,
            r.anchor == anchor,
            r.application_vp == application_vp,
            r.dynamic_vps == dynamic_vps,
    {
        InputNoteProvingInfo { note, merkle_path, anchor, application_vp, dynamic_vps }
    }

    /// The proving info of a padding input slot: the padding note under
    /// the trivial predicate.
    pub fn create_padding_note_proving_info(
        padding_note: Note,
        merkle_path: MerklePath,
        anchor: Anchor,
        input_notes: [Note; NUM_NOTE],
        output_notes: [Note; NUM_NOTE],
    ) -> (r: InputNoteProvingInfo)
        requires
            padding_note.nk_container.is_key(),
        ensures
            r.note == padding_note,
            r.anchor == Some(anchor),
            r.application_vp matches ValidityPredicateInstance::Trivial(c) && c.input_notes
                == input_notes && c.output_notes == output_notes,
            r.dynamic_vps@.len() == 0,
    {
        let nf = match padding_note.get_nf() {
            Some(nf) => nf,
            None => {
                proof {
                    assert(false);
                }
                Nullifier::from_field(FieldElement::zero())
            },
        };
        let vp = TrivialValidityPredicateCircuit::new(nf.inner(), input_notes, output_notes);
        InputNoteProvingInfo {
            note: padding_note,
            merkle_path,
            anchor: Some(anchor),
            application_vp: ValidityPredicateInstance::Trivial(vp),
            dynamic_vps: Vec::new(),
        }
    }
}

/// Everything needed to prove one output: the note and the predicates
/// guarding it.
#[derive(Clone, Debug)]
pub struct OutputNoteProvingInfo {
    /// The note being created.
    pub note: Note,
    /// The governing predicate.
    pub application_vp: ValidityPredicateInstance,
    /// The auxiliary predicates.
    pub dynamic_vps: Vec<ValidityPredicateInstance>,
}

impl OutputNoteProvingInfo {
    /// Bundles an output with its proving material.
    pub fn new(
        note: Note,
        application_vp: ValidityPredicateInstance,
        dynamic_vps: Vec<ValidityPredicateInstance>,
    ) -> (r: OutputNoteProvingInfo)
        ensures
            r.note == note,
            r.application_vp == application_vp,
            r.dynamic_vps == dynamic_vps,
    {
        OutputNoteProvingInfo { note, application_vp, dynamic_vps }
    }

    /// The proving info of a padding output slot.
    pub fn create_padding_note_proving_info(
        padding_note: Note,
        input_notes: [Note; NUM_NOTE],
        output_notes: [Note; NUM_NOTE],
    ) -> (r: OutputNoteProvingInfo)
        ensures
            r.note == padding_note,
            r.application_vp matches ValidityPredicateInstance::Trivial(c) && c.input_notes
                == input_notes && c.output_notes == output_notes,
            r.dynamic_vps@.len() == 0,
    {
        let cm = padding_note.commitment();
        let vp = TrivialValidityPredicateCircuit::new(cm.inner(), input_notes, output_notes);
        OutputNoteProvingInfo {
            note: padding_note,
            application_vp: ValidityPredicateInstance::Trivial(vp),
            dynamic_vps: Vec::new(),
        }
    }
}

/// The anchor a spend is recorded under: the given one, or the root
/// recomputed from the path when none was given.
pub open spec fn spec_used_anchor(inp: &InputNoteProvingInfo) -> crate::field::Limbs {
    match inp.anchor {
        Some(a) => a@,
        None => spec_root(inp.note.spec_commitment(), inp.merkle_path@),
    }
}

/// Why the structural part of one (spend, output) slot fails, if it does:
/// an unspendable input is a witness error; for a membership-checked note
/// an anchor differing from the recomputed root is a Merkle inconsistency;
/// an output not chained to the spend's nullifier is a witness error.
pub open spec fn spec_slot_error(
    inp: &InputNoteProvingInfo,
    outp: &OutputNoteProvingInfo,
) -> Option<TransactionError> {
    if !inp.note.nk_container.is_key() {
        Some(TransactionError::WitnessError)
    } else if inp.note.is_merkle_checked && spec_used_anchor(inp) != spec_root(
        inp.note.spec_commitment(),
        inp.merkle_path@,
    ) {
        Some(TransactionError::MerkleInconsistencyError)
    } else if outp.note.rho@ != inp.note.spec_nullifier() {
        Some(TransactionError::WitnessError)
    } else {
        None
    }
}

/// The first proof error among a sequence of predicate instances, if any.
pub open spec fn spec_first_instance_error(s: Seq<ValidityPredicateInstance>, i: int) -> Option<
    TransactionError,
>
    decreases s.len() - i,
{
    if i < 0 || i >= s.len() {
        None
    } else if s[i].spec_proof_error() is Some {
        s[i].spec_proof_error()
    } else {
        spec_first_instance_error(s, i + 1)
    }
}

/// Why proving one note's predicate set fails, if it does.
pub open spec fn spec_vp_set_error(
    app: &ValidityPredicateInstance,
    dynamics: Seq<ValidityPredicateInstance>,
) -> Option<TransactionError> {
    if app.spec_proof_error() is Some {
        app.spec_proof_error()
    } else {
        spec_first_instance_error(dynamics, 0)
    }
}

/// Why building a partial transaction fails, if it does: the slots are
/// checked structurally first, then every input's predicates are proven,
/// then every output's.
pub open spec fn spec_build_error(
    ins: Seq<InputNoteProvingInfo>,
    outs: Seq<OutputNoteProvingInfo>,
) -> Option<TransactionError>
    recommends
        ins.len() == NUM_NOTE,
        outs.len() == NUM_NOTE,
{
    if spec_slot_error(&ins[0], &outs[0]) is Some {
        spec_slot_error(&ins[0], &outs[0])
    } else if spec_slot_error(&ins[1], &outs[1]) is Some {
        spec_slot_error(&ins[1], &outs[1])
    } else if spec_vp_set_error(&ins[0].application_vp, ins[0].dynamic_vps@) is Some {
        spec_vp_set_error(&ins[0].application_vp, ins[0].dynamic_vps@)
    } else if spec_vp_set_error(&ins[1].application_vp, ins[1].dynamic_vps@) is Some {
        spec_vp_set_error(&ins[1].application_vp, ins[1].dynamic_vps@)
    } else if spec_vp_set_error(&outs[0].application_vp, outs[0].dynamic_vps@) is Some {
        spec_vp_set_error(&outs[0].application_vp, outs[0].dynamic_vps@)
    } else if spec_vp_set_error(&outs[1].application_vp, outs[1].dynamic_vps@) is Some {
        spec_vp_set_error(&outs[1].application_vp, outs[1].dynamic_vps@)
    } else {
        None
    }
}

/// Checks the structural half of one slot and produces its action.
fn check_slot(inp: &InputNoteProvingInfo, outp: &OutputNoteProvingInfo) -> (r: Result<
    Action,
    TransactionError,
>)
    ensures
        r is Ok <==> spec_slot_error(inp, outp) is None,
        r matches Err(e) ==> Some(e) == spec_slot_error(inp, outp),
        r matches Ok(a) ==> {
            &&& a.root@ == spec_used_anchor(inp)
            &&& a.nf@ == inp.note.spec_nullifier()
            &&& a.cm@ == outp.note.spec_commitment()
        },
{
    let nf = match inp.note.get_nf() {
        Some(nf) => nf,
        None => {
            return Err(TransactionError::WitnessError);
        },
    };
    let cm = inp.note.commitment();
    let cm_fe = cm.inner();
    let computed = inp.merkle_path.root(&cm_fe);
    let anchor_used = match &inp.anchor {
        Some(a) => *a,
        None => computed,
    };
    if inp.note.is_merkle_checked {
        if !(anchor_used == computed) {
            return Err(TransactionError::MerkleInconsistencyError);
        }
    }
    if !(outp.note.rho == nf) {
        return Err(TransactionError::WitnessError);
    }
    let out_cm = outp.note.commitment();
    Ok(Action { root: anchor_used, nf, cm: out_cm.inner() })
}

/// Proves one note's governing predicate and every auxiliary one, failing
/// fast on the first rejected witness.
fn generate_vp_set(
    app: ValidityPredicateInstance,
    dynamics: Vec<ValidityPredicateInstance>,
) -> (r: Result<NoteVPVerifyingInfoSet, TransactionError>)
    ensures
        r is Ok <==> spec_vp_set_error(&app, dynamics@) is None,
        r matches Err(e) ==> Some(e) == spec_vp_set_error(&app, dynamics@),
        r matches Ok(s) ==> {
            &&& s.app_vp_verifying_info.spec_valid()
            &&& s.app_vp_verifying_info.vk@ == app.spec_vk()
            &&& views_of(s.app_vp_verifying_info.instance@) == app.spec_instance()
            &&& s.app_dynamic_vp_verifying_info@.len() == dynamics@.len()
            &&& forall|i: int|
                0 <= i < s.app_dynamic_vp_verifying_info@.len() ==> {
                    &&& (#[trigger] s.app_dynamic_vp_verifying_info@[i]).spec_valid()
                    &&& s.app_dynamic_vp_verifying_info@[i].vk@ == dynamics@[i].spec_vk()
                    &&& views_of(s.app_dynamic_vp_verifying_info@[i].instance@)
                        == dynamics@[i].spec_instance()
                }
        },
{
    let ghost app_spec = app;
    let ghost dyn_spec = dynamics@;
    let app_vp_verifying_info = match app.generate_proof() {
        Ok(v) => v,
        Err(e) => {
            proof {
                assert(app_spec.spec_proof_error() == Some(e));
                assert(spec_vp_set_error(&app_spec, dyn_spec) == Some(e));
            }
            return Err(e);
        },
    };
    let mut rest = dynamics;
    let ghost orig = rest@;
    let mut infos: Vec<VPVerifyingInfo> = Vec::new();
    while rest.len() > 0
        invariant
            orig == dynamics@,
            app_spec == app,
            app_spec.spec_proof_error() is None,
            infos@.len() + rest@.len() == orig.len(),
            rest@ == orig.subrange(infos@.len() as int, orig.len() as int),
            spec_first_instance_error(orig, 0) == spec_first_instance_error(
                orig,
                infos@.len() as int,
            ),
            forall|j: int|
                0 <= j < infos@.len() ==> {
                    &&& (#[trigger] infos@[j]).spec_valid()
                    &&& infos@[j].vk@ == orig[j].spec_vk()
                    &&& views_of(infos@[j].instance@) == orig[j].spec_instance()
                },
        decreases rest@.len(),
    {
        let ghost idx = infos@.len() as int;
        let vp = rest.remove(0);
        proof {
            assert(vp == orig[idx]);
        }
        match vp.generate_proof() {
            Ok(v) => {
                infos.push(v);
            },
            Err(e) => {
                proof {
                    assert(orig[idx].spec_proof_error() == Some(e));
                    assert(spec_first_instance_error(orig, idx) == Some(e));
                }
                return Err(e);
            },
        }
        proof {
            assert(rest@ =~= orig.subrange(idx + 1, orig.len() as int));
            assert(spec_first_instance_error(orig, idx) == spec_first_instance_error(
                orig,
                idx + 1,
            ));
        }
    }
    proof {
        assert(spec_first_instance_error(orig, orig.len() as int) is None);
    }
    Ok(NoteVPVerifyingInfoSet { app_vp_verifying_info, app_dynamic_vp_verifying_info: infos })
}

/// A fully built shielded partial transaction: two actions, the notes
/// behind them, and every predicate's verifying info.
#[derive(Clone, Debug)]
pub struct ShieldedPartialTransaction {
    /// The public action of each slot.
    pub actions: [Action; NUM_NOTE],
    /// The spent notes.
    pub input_notes: [Note; NUM_NOTE],
    /// The created notes.
    pub output_notes: [Note; NUM_NOTE],
    /// The predicate proofs of each spent note.
    pub input_proofs: Vec<NoteVPVerifyingInfoSet>,
    /// The predicate proofs of each created note.
    pub output_proofs: Vec<NoteVPVerifyingInfoSet>,
}

impl ShieldedPartialTransaction {
    /// Whether every carried verifying info is internally consistent.
    pub open spec fn spec_proofs_valid(&self) -> bool {
        &&& self.input_proofs@.len() == NUM_NOTE
        &&& self.output_proofs@.len() == NUM_NOTE
        &&& forall|i: int|
            0 <= i < NUM_NOTE ==> (#[trigger] self.input_proofs@[i]).app_vp_verifying_info.spec_valid()
        &&& forall|i: int|
            0 <= i < NUM_NOTE ==> (#[trigger] self.output_proofs@[i]).app_vp_verifying_info.spec_valid()
        &&& forall|i: int, j: int|
            0 <= i < NUM_NOTE && 0 <= j < self.input_proofs@[i].app_dynamic_vp_verifying_info@.len()
                ==> (#[trigger] self.input_proofs@[i].app_dynamic_vp_verifying_info@[j]).spec_valid()
        &&& forall|i: int, j: int|
            0 <= i < NUM_NOTE && 0 <= j
                < self.output_proofs@[i].app_dynamic_vp_verifying_info@.len() ==> (
            #[trigger] self.output_proofs@[i].app_dynamic_vp_verifying_info@[j]).spec_valid()
    }

    /// Whether the recorded actions agree with the carried notes: each
    /// action's nullifier is its input note's, and its commitment its
    /// output note's.
    pub open spec fn spec_actions_consistent(&self) -> bool {
        forall|i: int|
            0 <= i < NUM_NOTE ==> {
                &&& (#[trigger] self.actions@[i]).nf@ == self.input_notes@[i].spec_nullifier()
                &&& self.actions@[i].cm@ == self.output_notes@[i].spec_commitment()
                &&& self.input_notes@[i].nk_container.is_key()
            }
    }

    /// Builds a partial transaction from exactly `NUM_NOTE` spends and as
    /// many outputs: checks spendability, anchor consistency and nullifier
    /// chaining, then proves every predicate, failing fast in that order.
    pub fn build(
        inputs: Vec<InputNoteProvingInfo>,
        outputs: Vec<OutputNoteProvingInfo>,
    ) -> (r: Result<ShieldedPartialTransaction, TransactionError>)
        requires
            inputs@.len() == NUM_NOTE,
            outputs@.len() == NUM_NOTE,
        ensures
            r is Ok <==> spec_build_error(inputs@, outputs@) is None,
            r matches Err(e) ==> Some(e) == spec_build_error(inputs@, outputs@),
            r matches Ok(ptx) ==> {
                &&& ptx.input_notes@ == inputs@.map_values(|p: InputNoteProvingInfo| p.note)
                &&& ptx.output_notes@ == outputs@.map_values(|p: OutputNoteProvingInfo| p.note)
                &&& ptx.spec_proofs_valid()
                &&& ptx.spec_actions_consistent()
                &&& forall|i: int|
                    0 <= i < NUM_NOTE ==> (#[trigger] ptx.actions@[i]).root@ == spec_used_anchor(
                        &inputs@[i],
                    )
            },
    {
        let ghost ins0 = inputs@;
        let ghost outs0 = outputs@;
        let mut inputs = inputs;
        let mut outputs = outputs;
        let in0 = inputs.remove(0);
        let in1 = inputs.remove(0);
        let out0 = outputs.remove(0);
        let out1 = outputs.remove(0);
        proof {
            assert(in0 == ins0[0]);
            assert(in1 == ins0[1]);
            assert(out0 == outs0[0]);
            assert(out1 == outs0[1]);
        }
        let action0 = match check_slot(&in0, &out0) {
            Ok(a) => a,
            Err(e) => {
                return Err(e);
            },
        };
        let action1 = match check_slot(&in1, &out1) {
            Ok(a) => a,
            Err(e) => {
                return Err(e);
            },
        };
        let input_notes = [in0.note, in1.note];
        let output_notes = [out0.note, out1.note];
        let in_set0 = match generate_vp_set(in0.application_vp, in0.dynamic_vps) {
            Ok(s) => s,
            Err(e) => {
                return Err(e);
            },
        };
        let in_set1 = match generate_vp_set(in1.application_vp, in1.dynamic_vps) {
            Ok(s) => s,
            Err(e) => {
                return Err(e);
            },
        };
        let out_set0 = match generate_vp_set(out0.application_vp, out0.dynamic_vps) {
            Ok(s) => s,
            Err(e) => {
                return Err(e);
            },
        };
        let out_set1 = match generate_vp_set(out1.application_vp, out1.dynamic_vps) {
            Ok(s) => s,
            Err(e) => {
                return Err(e);
            },
        };
        let mut input_proofs: Vec<NoteVPVerifyingInfoSet> = Vec::new();
        input_proofs.push(in_set0);
        input_proofs.push(in_set1);
        let mut output_proofs: Vec<NoteVPVerifyingInfoSet> = Vec::new();
        output_proofs.push(out_set0);
        output_proofs.push(out_set1);
        let ptx = ShieldedPartialTransaction {
            actions: [action0, action1],
            input_notes,
            output_notes,
            input_proofs,
            output_proofs,
        };
        proof {
            assert(ptx.input_notes@ =~= ins0.map_values(|p: InputNoteProvingInfo| p.note)) by {
                assert(ptx.input_notes@[0] == in0.note);
                assert(ptx.input_notes@[1] == in1.note);
            }
            assert(ptx.output_notes@ =~= outs0.map_values(|p: OutputNoteProvingInfo| p.note));
        }
        Ok(ptx)
    }

    /// Whether every predicate proof carried by this partial transaction
    /// verifies against its claimed verifying key and instance.
    pub fn verify_proofs(&self) -> (r: bool)
        requires
            self.input_proofs@.len() == NUM_NOTE,
            self.output_proofs@.len() == NUM_NOTE,
        ensures
            r == self.spec_proofs_valid(),
    {
        let mut i: usize = 0;
        while i < NUM_NOTE
            invariant
                self.input_proofs@.len() == NUM_NOTE,
                self.output_proofs@.len() == NUM_NOTE,
                i <= NUM_NOTE,
                forall|k: int|
                    0 <= k < i ==> (#[trigger] self.input_proofs@[k]).app_vp_verifying_info.spec_valid(),
                forall|k: int|
                    0 <= k < i ==> (#[trigger] self.output_proofs@[k]).app_vp_verifying_info.spec_valid(),
                forall|k: int, j: int|
                    0 <= k < i && 0 <= j
                        < self.input_proofs@[k].app_dynamic_vp_verifying_info@.len() ==> (
                    #[trigger] self.input_proofs@[k].app_dynamic_vp_verifying_info@[j]).spec_valid(),
                forall|k: int, j: int|
                    0 <= k < i && 0 <= j
                        < self.output_proofs@[k].app_dynamic_vp_verifying_info@.len() ==> (
                    #[trigger] self.output_proofs@[k].app_dynamic_vp_verifying_info@[j]).spec_valid(),
            decreases NUM_NOTE - i,
        {
            if !self.input_proofs[i].app_vp_verifying_info.verify() {
                return false;
            }
            if !self.output_proofs[i].app_vp_verifying_info.verify() {
                return false;
            }
            let in_dyn = &self.input_proofs[i].app_dynamic_vp_verifying_info;
            let mut j: usize = 0;
            while j < in_dyn.len()
                invariant
                    self.input_proofs@.len() == NUM_NOTE,
                    i < NUM_NOTE,
                    in_dyn == &self.input_proofs@[i as int].app_dynamic_vp_verifying_info,
                    j <= in_dyn@.len(),
                    forall|m: int| 0 <= m < j ==> (#[trigger] in_dyn@[m]).spec_valid(),
                decreases in_dyn@.len() - j,
            {
                if !in_dyn[j].verify() {
                    return false;
                }
                j += 1;
            }
            let out_dyn = &self.output_proofs[i].app_dynamic_vp_verifying_info;
            let mut j2: usize = 0;
            while j2 < out_dyn.len()
                invariant
                    self.output_proofs@.len() == NUM_NOTE,
                    i < NUM_NOTE,
                    out_dyn == &self.output_proofs@[i as int].app_dynamic_vp_verifying_info,
                    j2 <= out_dyn@.len(),
                    forall|m: int| 0 <= m < j2 ==> (#[trigger] out_dyn@[m]).spec_valid(),
                decreases out_dyn@.len() - j2,
            {
                if !out_dyn[j2].verify() {
                    return false;
                }
                j2 += 1;
            }
            i += 1;
        }
        true
    }
}

} // verus!
