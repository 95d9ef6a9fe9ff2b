//! Actions: the public data binding one spent note to one newly created
//! note, and the chaining constructor that makes the output note's `rho`
//! the spend's freshly derived nullifier.

use vstd::prelude::*;

use crate::field::{random_field_element, random_u64, FieldElement};
use crate::merkle_tree::{spec_root, Anchor, MerklePath};
use crate::note::Note;
use crate::nullifier::{Nullifier, NullifierKeyContainer};

verus! {

/// The public result of one action, as used in a transaction: the anchor
/// the spend was proven against, the spent note's nullifier, and the new
/// note's commitment.
#[derive(Clone, Copy, Debug, PartialEq, Eq, Structural)]
pub struct Action {
    /// The root of the note commitment Merkle tree used for the spend.
    pub root: Anchor,
    /// The nullifier of the spend note.
    pub nf: Nullifier,
    /// The commitment of the output note.
    pub cm: FieldElement,
}

impl Action {
    /// Whether an output note is correctly chained to this action: its
    /// `rho` must be the spend's freshly derived nullifier.
    pub fn chains_to(&self, output: &Note) -> (r: bool)
        ensures
            r == (output.rho@ == self.nf@),
    {
        output.rho == self.nf
    }
}

/// The spend half of an action: the note, its authentication path, and the
/// root recomputed from them.
#[derive(Clone, Debug)]
pub struct SpendInfo {
    /// The note being spent.
    pub note: Note,
    /// The authentication path of the note's commitment.
    pub auth_path: MerklePath,
    /// The root recomputed from the note's commitment and the path.
    pub root: Anchor,
}

impl SpendInfo {
    /// Records a spend: the root is always the one recomputed from the
    /// note's commitment and the given path. Authentication paths have
    /// exactly one entry per level of the fixed-depth tree.
    pub fn new(note: Note, merkle_path: MerklePath) -> (r: SpendInfo)
        requires
            merkle_path.well_formed(),
        ensures
            r.note == note,
            r.auth_path@ == merkle_path@,
            r.root@ == spec_root(note.spec_commitment(), merkle_path@),
    {
        let cm = note.commitment();
        let cm_fe = cm.inner();
        let root = merkle_path.root(&cm_fe);
        SpendInfo { note, auth_path: merkle_path, root }
    }
}

/// The output half of an action: the fields of the note to be created.
#[derive(Clone, Copy, Debug)]
pub struct OutputInfo {
    /// The recipient's spending authority (normally a key commitment).
    pub nk_com: NullifierKeyContainer,
    /// The governing application of the new note.
    pub app_descriptor: FieldElement,
    /// Application-interpreted data of the new note.
    pub app_data_dynamic: FieldElement,
    /// The value of the new note.
    pub value: u64,
}

impl OutputInfo {
    /// Records the fields of the note to be created.
    pub fn new(
        nk_com: NullifierKeyContainer,
        app_descriptor: FieldElement,
        app_data_dynamic: FieldElement,
        value: u64,
    ) -> (r: OutputInfo)
        ensures
            r.nk_com == nk_com,
            r.app_descriptor == app_descriptor,
            r.app_data_dynamic == app_data_dynamic,
            r.value == value,
    {
        OutputInfo { nk_com, app_descriptor, app_data_dynamic, value }
    }

    /// An output with fresh random fields, for tests and padding.
    pub fn dummy() -> (r: OutputInfo)
        ensures
            !r.nk_com.is_key(),
    {
        OutputInfo {
            nk_com: NullifierKeyContainer::Commitment(random_field_element()),
            app_descriptor: random_field_element(),
            app_data_dynamic: random_field_element(),
            value: random_u64(),
        }
    }
}

/// Everything needed to build one action.
#[derive(Clone, Debug)]
pub struct ActionInfo {
    /// The spend half.
    pub spend: SpendInfo,
    /// The output half.
    pub output: OutputInfo,
}

impl ActionInfo {
    /// Pairs a spend with an output.
    pub fn new(spend: SpendInfo, output: OutputInfo) -> (r: ActionInfo)
        ensures
            r.spend == spend,
            r.output == output,
    {
        ActionInfo { spend, output }
    }

    /// A fully random action description whose spend note can be spent:
    /// its recorded root is consistent with its path by construction, so
    /// it is usable as a padding action.
    pub fn dummy() -> (r: ActionInfo)
        ensures
            r.spend.note.nk_container.is_key(),
            r.spend.note.well_formed(),
            r.spend.auth_path.well_formed(),
            r.spend.root@ == spec_root(r.spend.note.spec_commitment(), r.spend.auth_path@),
    {
        let spend_note = Note::new(
            random_field_element(),
            random_field_element(),
            random_u64(),
            NullifierKeyContainer::Key(random_field_element()),
            Nullifier::from_field(random_field_element()),
            random_field_element(),
            true,
        );
        let merkle_path = MerklePath::random();
        let spend = SpendInfo::new(spend_note, merkle_path);
        let output = OutputInfo::dummy();
        ActionInfo { spend, output }
    }

    /// Builds the action: derives the spent note's nullifier, creates the
    /// output note with that very nullifier as its `rho` (this is the only
    /// way the library creates an action's output note, so mischained
    /// outputs cannot arise here), and commits to it.
    ///
    /// Requires a spend note whose nullifier key is known: a key
    /// commitment alone cannot spend.
    pub fn build(self, output_seed: FieldElement) -> (r: (Action, Note))
        requires
            self.spend.note.nk_container.is_key(),
        ensures
            r.0.root == self.spend.root,
            r.0.nf@ == self.spend.note.spec_nullifier(),
            r.0.cm@ == r.1.spec_commitment(),
            r.1.well_formed(),
            r.1.rho@ == self.spend.note.spec_nullifier(),
            r.1.app_descriptor == self.output.app_descriptor,
            r.1.app_data_dynamic == self.output.app_data_dynamic,
            r.1.value == self.output.value,
            r.1.nk_container == self.output.nk_com,
            r.1.random_seed == output_seed,
            r.1.is_merkle_checked,
    {
        let nf = match self.spend.note.get_nf() {
            Some(nf) => nf,
            None => {
                proof {
                    assert(false);
                }
                Nullifier::from_field(FieldElement::zero())
            },
        };
        let output_note = Note::new(
            self.output.app_descriptor,
            self.output.app_data_dynamic,
            self.output.value,
            self.output.nk_com,
            nf,
            output_seed,
            true,
        );
        let output_cm = output_note.commitment();
        let action = Action { root: self.spend.root, nf, cm: output_cm.inner() };
        (action, output_note)
    }
}

} // verus!
