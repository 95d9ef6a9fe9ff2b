//! The client-facing surface: errors, notes located in the tree with their
//! paths, partial-transaction proving material, and the context contract a
//! wallet or ledger backend implements.

use vstd::prelude::*;

use crate::field::{CurvePoint, FieldElement};
use crate::merkle_tree::{build_path, limbs_of, spec_root, spec_tree_root, MerklePath};
use crate::note::Note;
use crate::shielded_ptx::{
    InputNoteProvingInfo, OutputNoteProvingInfo, ShieldedPartialTransaction,
};
use crate::NUM_NOTE;

verus! {

/// Errors of the client-facing surface.
#[derive(Clone, Copy, Debug, PartialEq, Eq, Structural)]
pub enum APIError {
    /// Something else went wrong.
    GenericError,
    /// A stored note could not be decrypted.
    NoteDecryptionError,
    /// No notes of the requested kind could be retrieved.
    RetrieveNoteError,
}

/// A note located in the commitment tree: the note, its leaf, and the
/// authentication path proving membership.
#[derive(Clone, Debug)]
pub struct NoteInTree {
    /// The decrypted note.
    pub note: Note,
    /// The leaf holding the note's commitment.
    pub note_cm: FieldElement,
    /// The membership proof of the leaf.
    pub merkle_path: MerklePath,
}

/// The complete proving material of one partial transaction.
#[derive(Clone, Debug)]
pub struct ProvingInfo {
    /// One proving bundle per input slot.
    pub input_proving_info: Vec<InputNoteProvingInfo>,
    /// One proving bundle per output slot.
    pub output_proving_info: Vec<OutputNoteProvingInfo>,
}

impl ProvingInfo {
    /// Proving material is well formed when it fills every slot exactly.
    pub open spec fn well_formed(&self) -> bool {
        &&& self.input_proving_info@.len() == NUM_NOTE
        &&& self.output_proving_info@.len() == NUM_NOTE
    }
}

/// What a wallet or ledger backend offers the protocol core: note
/// decryption and retrieval against its own storage, and assembly of
/// partial transactions. Implementations live outside the core.
pub trait APIContext {
    /// Decrypts the stored note committed to by the given leaf.
    fn decrypt_note(
        &self,
        note_comm: FieldElement,
        public_key: CurvePoint,
        private_key: FieldElement,
    ) -> Result<Note, APIError>;

    /// Looks up the application descriptor registered under a name.
    fn retrieve_note_type(&self, name: &str) -> Option<FieldElement>;

    /// Retrieves every note of the given kind owned by the key pair,
    /// together with its membership proof.
    fn retrieve_owned_notes(
        &self,
        note_identifier: &str,
        sk: FieldElement,
        pk: CurvePoint,
    ) -> Result<Vec<NoteInTree>, APIError>;

    /// Assembles a partial transaction from complete proving material.
    fn create_ptx(proving_info: ProvingInfo) -> Result<ShieldedPartialTransaction, APIError>;

    /// Aggregates partial transactions and submits the result.
    fn finalize_tx(partial_transactions: Vec<ShieldedPartialTransaction>) -> Result<
        (),
        APIError,
    >;
}

/// Whether the trial decryption at index `i` yields a note of the wanted
/// kind sitting at its own leaf.
pub open spec fn spec_owned_at(
    leaves: Seq<FieldElement>,
    decrypted: Seq<Option<Note>>,
    note_type: FieldElement,
    i: int,
) -> bool {
    &&& decrypted[i] is Some
    &&& decrypted[i].unwrap().app_descriptor == note_type
    &&& decrypted[i].unwrap().spec_commitment() == leaves[i]@
}

/// The notes of the wanted kind among the trial decryptions from index
/// `i` on, in leaf order.
pub open spec fn spec_owned_notes(
    leaves: Seq<FieldElement>,
    decrypted: Seq<Option<Note>>,
    note_type: FieldElement,
    i: int,
) -> Seq<Note>
    decreases decrypted.len() - i,
{
    if i < 0 || i >= decrypted.len() {
        Seq::<Note>::empty()
    } else if spec_owned_at(leaves, decrypted, note_type, i) {
        seq![decrypted[i].unwrap()] + spec_owned_notes(leaves, decrypted, note_type, i + 1)
    } else {
        spec_owned_notes(leaves, decrypted, note_type, i + 1)
    }
}

/// Selects, from the tree's leaves and their trial decryptions, exactly
/// the notes of the wanted kind whose commitment really is their leaf, in
/// leaf order, and equips each with its membership proof: every returned
/// path recomputes the tree's current root from its note's commitment.
pub fn build_owned_notes(
    leaves: &Vec<FieldElement>,
    decrypted: &Vec<Option<Note>>,
    note_type: &FieldElement,
) -> (r: Vec<NoteInTree>)
    requires
        decrypted@.len() == leaves@.len(),
        leaves@.len() <= 0x4000_0000,
    ensures
        r@.map_values(|e: NoteInTree| e.note) == spec_owned_notes(
            leaves@,
            decrypted@,
            *note_type,
            0,
        ),
        forall|k: int|
            0 <= k < r@.len() ==> {
                &&& (#[trigger] r@[k]).note.app_descriptor == *note_type
                &&& r@[k].note.spec_commitment() == r@[k].note_cm@
                &&& spec_root(r@[k].note.spec_commitment(), r@[k].merkle_path@)
                    == spec_tree_root(limbs_of(leaves@))
            },
{
    let mut out: Vec<NoteInTree> = Vec::new();
    let mut i: usize = 0;
    while i < leaves.len()
        invariant
            decrypted@.len() == leaves@.len(),
            leaves@.len() <= 0x4000_0000,
            i <= leaves@.len(),
            out@.map_values(|e: NoteInTree| e.note) + spec_owned_notes(
                leaves@,
                decrypted@,
                *note_type,
                i as int,
            ) == spec_owned_notes(leaves@, decrypted@, *note_type, 0),
            forall|k: int|
                0 <= k < out@.len() ==> {
                    &&& (#[trigger] out@[k]).note.app_descriptor == *note_type
                    &&& out@[k].note.spec_commitment() == out@[k].note_cm@
                    &&& spec_root(out@[k].note.spec_commitment(), out@[k].merkle_path@)
                        == spec_tree_root(limbs_of(leaves@))
                },
        decreases leaves@.len() - i,
    {
        let ghost pre = out@;
        let mut selected = false;
        if let Some(note) = &decrypted[i] {
            if note.app_descriptor == *note_type {
                let cm = note.commitment();
                let cm_fe = cm.inner();
                if cm_fe == leaves[i] {
                    let merkle_path = build_path(leaves, i);
                    out.push(NoteInTree { note: *note, note_cm: leaves[i], merkle_path });
                    selected = true;
                }
            }
        }
        proof {
            let t = *note_type;
            if selected {
                assert(spec_owned_at(leaves@, decrypted@, t, i as int));
                assert(spec_owned_notes(leaves@, decrypted@, t, i as int) == seq![
                    decrypted@[i as int].unwrap(),
                ] + spec_owned_notes(leaves@, decrypted@, t, i + 1));
                assert(out@.map_values(|e: NoteInTree| e.note) =~= pre.map_values(
                    |e: NoteInTree| e.note,
                ).push(decrypted@[i as int].unwrap()));
                assert(out@.map_values(|e: NoteInTree| e.note) + spec_owned_notes(
                    leaves@,
                    decrypted@,
                    t,
                    i + 1,
                ) =~= pre.map_values(|e: NoteInTree| e.note) + spec_owned_notes(
                    leaves@,
                    decrypted@,
                    t,
                    i as int,
                ));
            } else {
                assert(!spec_owned_at(leaves@, decrypted@, t, i as int));
                assert(spec_owned_notes(leaves@, decrypted@, t, i as int) == spec_owned_notes(
                    leaves@,
                    decrypted@,
                    t,
                    i + 1,
                ));
            }
        }
        i += 1;
    }
    proof {
        assert(spec_owned_notes(leaves@, decrypted@, *note_type, leaves@.len() as int)
            =~= Seq::<Note>::empty());
        assert(out@.map_values(|e: NoteInTree| e.note) =~= out@.map_values(
            |e: NoteInTree| e.note,
        ) + Seq::<Note>::empty());
    }
    out
}

} // verus!
