//! Validity predicate bytecode and dispatch: a tagged representation
//! carrying either a portable constraint-system description or an
//! enumerated native predicate, and the dispatcher that compiles, checks
//! the witness, and produces a uniform verifying info for each.

use vstd::prelude::*;

use crate::codec::{decode_note, fe_from_bytes, fe_of_limbs, spec_decode_note, NOTE_BYTES_LEN};
use crate::error::TransactionError;
use crate::field::{fp_add, fp_add_of, fp_mul, fp_mul_of, poseidon2, poseidon2_of, FieldElement,
    Limbs};
use crate::intent::PartialFulfillmentIntentValidityPredicateCircuit;
use crate::note::Note;
use crate::signature::SignatureVerificationValidityPredicateCircuit;
use crate::vp::{
    bytes_digest, make_verifying_info, mandatory_instance, spec_bytes_digest,
    spec_inputs_spendable, spec_mandatory_instance, views_of, BalanceValidityPredicate,
    TrivialValidityPredicateCircuit, VPVerifyingInfo, VK_TAG,
};
use crate::NUM_NOTE;

verus! {

/// The reserved version byte of portable circuit descriptions.
pub const PORTABLE_CIRCUIT_VERSION: u8 = 1;

/// Byte length of one encoded portable constraint.
pub const CONSTRAINT_BYTES: usize = 25;

/// Byte length of the witness of a note-inspecting predicate: the owned
/// note's identity followed by two input and two output notes.
pub const NOTE_WITNESS_BYTES: usize = 844;

/// One constraint of a portable circuit: an addition or multiplication
/// relation among three witness values.
#[derive(Clone, Copy, Debug, PartialEq, Eq, Structural)]
pub struct PortableConstraint {
    /// 0 for addition, 1 for multiplication.
    pub op: u8,
    /// Index of the left operand in the witness.
    pub a: u64,
    /// Index of the right operand in the witness.
    pub b: u64,
    /// Index of the claimed result in the witness.
    pub c: u64,
}

/// A tagged circuit representation: portable bytecode with a unified
/// constraint encoding, or an enumerated native circuit.
#[derive(Clone, Debug)]
pub enum ValidityPredicateRepresentation {
    /// A portable constraint-system description.
    VampIR(Vec<u8>),
    /// The native no-op circuit.
    Trivial,
}

/// A predicate representation paired with its serialized witness inputs.
#[derive(Clone, Debug)]
pub struct ValidityPredicateByteCode {
    /// Which circuit to compile and prove.
    pub circuit: ValidityPredicateRepresentation,
    /// The serialized witness.
    pub inputs: Vec<u8>,
}

/// Whether a portable circuit description is well formed, without regard
/// to any witness.
pub open spec fn spec_circuit_parses(s: Seq<u8>) -> bool {
    &&& s.len() >= 9
    &&& s[0] == PORTABLE_CIRCUIT_VERSION
    &&& s.len() == 9 + CONSTRAINT_BYTES * spec_circuit_count(s)
    &&& forall|i: int|
        0 <= i < spec_circuit_count(s) ==> (#[trigger] spec_circuit_constraint(s, i)).op <= 1
}

/// The constraint count a portable description claims.
pub open spec fn spec_circuit_count(s: Seq<u8>) -> int {
    vstd::bytes::spec_u64_from_le_bytes(s.subrange(1, 9)) as int
}

/// The constraint at index `i` of a portable description.
pub open spec fn spec_circuit_constraint(s: Seq<u8>, i: int) -> PortableConstraint {
    let off = 9 + CONSTRAINT_BYTES * i;
    PortableConstraint {
        op: s[off],
        a: vstd::bytes::spec_u64_from_le_bytes(s.subrange(off + 1, off + 9)),
        b: vstd::bytes::spec_u64_from_le_bytes(s.subrange(off + 9, off + 17)),
        c: vstd::bytes::spec_u64_from_le_bytes(s.subrange(off + 17, off + 25)),
    }
}

/// Whether a witness byte string is well formed.
pub open spec fn spec_witness_parses(s: Seq<u8>) -> bool {
    &&& s.len() >= 8
    &&& s.len() == 8 + 32 * spec_witness_count(s)
}

/// The witness count a witness byte string claims.
pub open spec fn spec_witness_count(s: Seq<u8>) -> int {
    vstd::bytes::spec_u64_from_le_bytes(s.subrange(0, 8)) as int
}

/// The witness value at index `i`.
pub open spec fn spec_witness_value(s: Seq<u8>, i: int) -> Limbs {
    fe_from_bytes(s.subrange(8 + 32 * i, 8 + 32 * i + 32))
}

/// Whether one constraint holds of a witness.
pub open spec fn spec_constraint_holds(s: Seq<u8>, w: Seq<u8>, i: int) -> bool {
    let c = spec_circuit_constraint(s, i);
    &&& c.a < spec_witness_count(w)
    &&& c.b < spec_witness_count(w)
    &&& c.c < spec_witness_count(w)
    &&& (c.op == 0 ==> fp_add_of(
        spec_witness_value(w, c.a as int),
        spec_witness_value(w, c.b as int),
    ) == spec_witness_value(w, c.c as int))
    &&& (c.op == 1 ==> fp_mul_of(
        spec_witness_value(w, c.a as int),
        spec_witness_value(w, c.b as int),
    ) == spec_witness_value(w, c.c as int))
}

/// Whether every constraint of a portable circuit holds of a witness.
pub open spec fn spec_circuit_satisfied(s: Seq<u8>, w: Seq<u8>) -> bool {
    forall|i: int| 0 <= i < spec_circuit_count(s) ==> #[trigger] spec_constraint_holds(s, w, i)
}

/// The note at slot `k` of a note-inspecting predicate's witness bytes
/// (slots 0 and 1 are inputs, 2 and 3 outputs).
pub open spec fn spec_witness_note(s: Seq<u8>, k: int) -> Option<Note> {
    spec_decode_note(s.subrange(32 + NOTE_BYTES_LEN * k, 32 + NOTE_BYTES_LEN * (k + 1)))
}

/// Whether a note-inspecting predicate's witness bytes parse.
pub open spec fn spec_note_witness_parses(s: Seq<u8>) -> bool {
    &&& s.len() == NOTE_WITNESS_BYTES
    &&& forall|k: int| 0 <= k < 4 ==> (#[trigger] spec_witness_note(s, k)) is Some
}

/// Whether both input notes of such a witness are spendable.
pub open spec fn spec_note_witness_spendable(s: Seq<u8>) -> bool {
    &&& spec_witness_note(s, 0).unwrap().nk_container.is_key()
    &&& spec_witness_note(s, 1).unwrap().nk_container.is_key()
}

/// The mandatory public instance of such a witness.
pub open spec fn spec_note_witness_instance(s: Seq<u8>) -> Seq<Limbs> {
    seq![
        fe_from_bytes(s.subrange(0, 32)),
        spec_witness_note(s, 0).unwrap().spec_nullifier(),
        spec_witness_note(s, 2).unwrap().spec_commitment(),
        spec_witness_note(s, 1).unwrap().spec_nullifier(),
        spec_witness_note(s, 3).unwrap().spec_commitment(),
    ]
}

/// The verifying-key digest of the native trivial circuit.
pub open spec fn spec_trivial_vk() -> Limbs {
    poseidon2_of((VK_TAG, 0, 0, 0), FieldElement::spec_from_u64(0)@)
}

/// The verifying-key digest of a portable circuit description.
pub open spec fn spec_portable_vk(s: Seq<u8>) -> Limbs {
    poseidon2_of((VK_TAG, 0, 0, 0), spec_bytes_digest(s))
}

/// The witness values of a portable witness, in order.
pub open spec fn spec_witness_values(w: Seq<u8>) -> Seq<Limbs> {
    Seq::new(spec_witness_count(w) as nat, |i: int| spec_witness_value(w, i))
}

impl ValidityPredicateByteCode {
    /// Pairs a circuit representation with its witness bytes.
    pub fn new(circuit: ValidityPredicateRepresentation, inputs: Vec<u8>) -> (r:
        ValidityPredicateByteCode)
        ensures
            r.circuit == circuit,
            r.inputs == inputs,
    {
        ValidityPredicateByteCode { circuit, inputs }
    }

    /// Why proving this bytecode fails, if it does: a malformed portable
    /// description cannot be compiled; a witness that does not parse, is
    /// not spendable, or does not satisfy the constraints is rejected
    /// before any proof is attempted.
    pub open spec fn spec_proof_error(&self) -> Option<TransactionError> {
        match self.circuit {
            ValidityPredicateRepresentation::VampIR(payload) => if !spec_circuit_parses(
                payload@,
            ) {
                Some(TransactionError::CircuitCompilationError)
            } else if !spec_witness_parses(self.inputs@) || !spec_circuit_satisfied(
                payload@,
                self.inputs@,
            ) {
                Some(TransactionError::WitnessError)
            } else {
                None
            },
            ValidityPredicateRepresentation::Trivial => if !spec_note_witness_parses(self.inputs@)
                || !spec_note_witness_spendable(self.inputs@) {
                Some(TransactionError::WitnessError)
            } else {
                None
            },
        }
    }

    /// The verifying key this bytecode compiles to.
    pub open spec fn spec_vk(&self) -> Limbs {
        match self.circuit {
            ValidityPredicateRepresentation::VampIR(payload) => spec_portable_vk(payload@),
            ValidityPredicateRepresentation::Trivial => spec_trivial_vk(),
        }
    }

    /// The public instance this bytecode proves.
    pub open spec fn spec_instance(&self) -> Seq<Limbs> {
        match self.circuit {
            ValidityPredicateRepresentation::VampIR(_) => spec_witness_values(self.inputs@),
            ValidityPredicateRepresentation::Trivial => spec_note_witness_instance(self.inputs@),
        }
    }

    /// Compiles the representation, checks the witness, and produces the
    /// verifying info; fails fast as `spec_proof_error` says.
    pub fn generate_proof(self) -> (r: Result<VPVerifyingInfo, TransactionError>)
        ensures
            r is Ok <==> self.spec_proof_error() is None,
            r matches Err(e) ==> Some(e) == self.spec_proof_error(),
            r matches Ok(v) ==> v.spec_valid() && v.vk@ == self.spec_vk() && views_of(v.instance@)
                == self.spec_instance(),
    {
        match &self.circuit {
            ValidityPredicateRepresentation::VampIR(payload) => {
                let constraints = match parse_portable_circuit(payload) {
                    Some(cs) => cs,
                    None => {
                        return Err(TransactionError::CircuitCompilationError);
                    },
                };
                let witness = match parse_portable_witness(&self.inputs) {
                    Some(w) => w,
                    None => {
                        return Err(TransactionError::WitnessError);
                    },
                };
                if !eval_constraints(payload, &constraints, &self.inputs, &witness) {
                    return Err(TransactionError::WitnessError);
                }
                let tag = FieldElement::from_u64(VK_TAG);
                let digest = bytes_digest(payload);
                let vk = poseidon2(&tag, &digest);
                Ok(make_verifying_info(vk, witness))
            },
            ValidityPredicateRepresentation::Trivial => {
                let parsed = match parse_note_witness(&self.inputs) {
                    Some(p) => p,
                    None => {
                        return Err(TransactionError::WitnessError);
                    },
                };
                let (owned, input_notes, output_notes) = parsed;
                let instance = match mandatory_instance(&owned, &input_notes, &output_notes) {
                    Ok(v) => v,
                    Err(e) => {
                        return Err(e);
                    },
                };
                let tag = FieldElement::from_u64(VK_TAG);
                let zero = FieldElement::zero();
                let vk = poseidon2(&tag, &zero);
                Ok(make_verifying_info(vk, instance))
            },
        }
    }
}

/// Copies a byte range out of a buffer.
fn subvec(bytes: &Vec<u8>, start: usize, end: usize) -> (r: Vec<u8>)
    requires
        start <= end <= bytes@.len(),
    ensures
        r@ == bytes@.subrange(start as int, end as int),
{
    let mut out: Vec<u8> = Vec::new();
    let mut i: usize = start;
    while i < end
        invariant
            start <= i <= end <= bytes@.len(),
            out@ == bytes@.subrange(start as int, i as int),
        decreases end - i,
    {
        let b = bytes[i];
        out.push(b);
        proof {
            assert(out@ =~= bytes@.subrange(start as int, i + 1 as int));
        }
        i += 1;
    }
    out
}

/// Parses a portable circuit description; yields nothing exactly when it
/// is malformed.
fn parse_portable_circuit(payload: &Vec<u8>) -> (r: Option<Vec<PortableConstraint>>)
    ensures
        r is Some <==> spec_circuit_parses(payload@),
        r matches Some(cs) ==> {
            &&& cs@.len() == spec_circuit_count(payload@)
            &&& forall|i: int|
                0 <= i < cs@.len() ==> cs@[i] == spec_circuit_constraint(payload@, i)
        },
{
    if payload.len() < 9 {
        return None;
    }
    if payload[0] != PORTABLE_CIRCUIT_VERSION {
        return None;
    }
    let plen = payload.len();
    let count64 = read_u64_at(payload, 1);
    let count_wide: u128 = 9u128 + (CONSTRAINT_BYTES as u128) * (count64 as u128);
    if (plen as u128) != count_wide {
        return None;
    }
    proof {
        assert(payload@.len() == 9 + CONSTRAINT_BYTES * count64);
        assert(count64 <= usize::MAX);
    }
    let count: usize = count64 as usize;
    let mut cs: Vec<PortableConstraint> = Vec::new();
    let mut i: usize = 0;
    while i < count
        invariant
            i <= count,
            count == spec_circuit_count(payload@),
            payload@.len() == 9 + CONSTRAINT_BYTES * count,
            payload@.len() <= usize::MAX,
            cs@.len() == i,
            forall|j: int| 0 <= j < i ==> cs@[j] == spec_circuit_constraint(payload@, j)
                && (#[trigger] cs@[j]).op <= 1,
        decreases count - i,
    {
        proof {
            assert(CONSTRAINT_BYTES * i + CONSTRAINT_BYTES <= CONSTRAINT_BYTES * count) by (nonlinear_arith)
                requires
                    i < count,
            ;
        }
        let off: usize = 9 + CONSTRAINT_BYTES * i;
        let op = payload[off];
        if op > 1 {
            proof {
                assert(spec_circuit_constraint(payload@, i as int).op == op);
            }
            return None;
        }
        let a = read_u64_at(payload, off + 1);
        let b = read_u64_at(payload, off + 9);
        let c = read_u64_at(payload, off + 17);
        cs.push(PortableConstraint { op, a, b, c });
        proof {
            assert(cs@[i as int] == spec_circuit_constraint(payload@, i as int));
        }
        i += 1;
    }
    proof {
        assert forall|k: int|
            0 <= k < spec_circuit_count(payload@) implies (#[trigger] spec_circuit_constraint(
            payload@,
            k,
        )).op <= 1 by {
            assert(cs@[k] == spec_circuit_constraint(payload@, k));
        }
        assert(spec_circuit_parses(payload@));
    }
    Some(cs)
}

/// Reads a machine word at a byte offset.
fn read_u64_at(bytes: &Vec<u8>, off: usize) -> (r: u64)
    requires
        off + 8 <= bytes@.len(),
        bytes@.len() <= usize::MAX,
    ensures
        r == vstd::bytes::spec_u64_from_le_bytes(bytes@.subrange(off as int, off as int + 8)),
{
    vstd::bytes::u64_from_le_bytes(vstd::slice::slice_subrange(bytes.as_slice(), off, off + 8))
}

/// Parses a portable witness; yields nothing exactly when it is malformed.
fn parse_portable_witness(inputs: &Vec<u8>) -> (r: Option<Vec<FieldElement>>)
    ensures
        r is Some <==> spec_witness_parses(inputs@),
        r matches Some(w) ==> {
            &&& w@.len() == spec_witness_count(inputs@)
            &&& forall|i: int| 0 <= i < w@.len() ==> (#[trigger] w@[i])@ == spec_witness_value(
                inputs@,
                i,
            )
        },
{
    if inputs.len() < 8 {
        return None;
    }
    let ilen = inputs.len();
    let count64 = read_u64_at(inputs, 0);
    let len_wide: u128 = 8u128 + 32u128 * (count64 as u128);
    if (ilen as u128) != len_wide {
        return None;
    }
    proof {
        assert(inputs@.len() == 8 + 32 * count64);
        assert(count64 <= usize::MAX);
    }
    let count: usize = count64 as usize;
    let mut w: Vec<FieldElement> = Vec::new();
    let mut i: usize = 0;
    while i < count
        invariant
            i <= count,
            count == spec_witness_count(inputs@),
            inputs@.len() == 8 + 32 * count,
            inputs@.len() <= usize::MAX,
            w@.len() == i,
            forall|j: int| 0 <= j < i ==> (#[trigger] w@[j])@ == spec_witness_value(inputs@, j),
        decreases count - i,
    {
        proof {
            assert(32 * i + 32 <= 32 * count) by (nonlinear_arith)
                requires
                    i < count,
            ;
        }
        let off: usize = 8 + 32 * i;
        let l0 = read_u64_at(inputs, off);
        let l1 = read_u64_at(inputs, off + 8);
        let l2 = read_u64_at(inputs, off + 16);
        let l3 = read_u64_at(inputs, off + 24);
        proof {
            let s = inputs@.subrange(off as int, off as int + 32);
            assert(s.subrange(0, 8) =~= inputs@.subrange(off as int, off as int + 8));
            assert(s.subrange(8, 16) =~= inputs@.subrange(off as int + 8, off as int + 16));
            assert(s.subrange(16, 24) =~= inputs@.subrange(off as int + 16, off as int + 24));
            assert(s.subrange(24, 32) =~= inputs@.subrange(off as int + 24, off as int + 32));
        }
        w.push(FieldElement { l0, l1, l2, l3 });
        i += 1;
    }
    Some(w)
}

/// Checks every constraint of a parsed circuit against a parsed witness.
fn eval_constraints(
    payload: &Vec<u8>,
    cs: &Vec<PortableConstraint>,
    inputs: &Vec<u8>,
    w: &Vec<FieldElement>,
) -> (r: bool)
    requires
        spec_circuit_parses(payload@),
        cs@.len() == spec_circuit_count(payload@),
        forall|i: int| 0 <= i < cs@.len() ==> cs@[i] == spec_circuit_constraint(payload@, i),
        w@.len() == spec_witness_count(inputs@),
        forall|i: int| 0 <= i < w@.len() ==> (#[trigger] w@[i])@ == spec_witness_value(inputs@, i),
    ensures
        r == spec_circuit_satisfied(payload@, inputs@),
{
    let mut i: usize = 0;
    while i < cs.len()
        invariant
            spec_circuit_parses(payload@),
            i <= cs@.len(),
            cs@.len() == spec_circuit_count(payload@),
            forall|j: int| 0 <= j < cs@.len() ==> cs@[j] == spec_circuit_constraint(payload@, j),
            w@.len() == spec_witness_count(inputs@),
            forall|j: int| 0 <= j < w@.len() ==> (#[trigger] w@[j])@ == spec_witness_value(
                inputs@,
                j,
            ),
            forall|j: int| 0 <= j < i ==> #[trigger] spec_constraint_holds(payload@, inputs@, j),
        decreases cs@.len() - i,
    {
        let c = cs[i];
        proof {
            assert(c == spec_circuit_constraint(payload@, i as int));
        }
        if c.a >= w.len() as u64 || c.b >= w.len() as u64 || c.c >= w.len() as u64 {
            proof {
                let sc = spec_circuit_constraint(payload@, i as int);
                assert(sc == c);
                assert(w@.len() == spec_witness_count(inputs@));
                assert(!(sc.a < spec_witness_count(inputs@)) || !(sc.b < spec_witness_count(
                    inputs@,
                )) || !(sc.c < spec_witness_count(inputs@)));
                assert(!spec_constraint_holds(payload@, inputs@, i as int));
            }
            return false;
        }
        let va = w[c.a as usize];
        let vb = w[c.b as usize];
        let vc = w[c.c as usize];
        let res = if c.op == 0 {
            fp_add(&va, &vb)
        } else {
            fp_mul(&va, &vb)
        };
        proof {
            assert(spec_circuit_constraint(payload@, i as int).op <= 1);
            assert(va@ == spec_witness_value(inputs@, c.a as int));
            assert(vb@ == spec_witness_value(inputs@, c.b as int));
            assert(vc@ == spec_witness_value(inputs@, c.c as int));
        }
        if !(res == vc) {
            proof {
                assert(!spec_constraint_holds(payload@, inputs@, i as int));
            }
            return false;
        }
        proof {
            assert(spec_constraint_holds(payload@, inputs@, i as int));
        }
        i += 1;
    }
    true
}

/// Parses the witness of a note-inspecting predicate: the owned note's
/// identity and the four notes.
fn parse_note_witness(inputs: &Vec<u8>) -> (r: Option<
    (FieldElement, [Note; NUM_NOTE], [Note; NUM_NOTE]),
>)
    ensures
        r is Some <==> spec_note_witness_parses(inputs@),
        r matches Some(p) ==> {
            &&& p.0 == fe_of_limbs(fe_from_bytes(inputs@.subrange(0, 32)))
            &&& p.1@[0] == spec_witness_note(inputs@, 0).unwrap()
            &&& p.1@[1] == spec_witness_note(inputs@, 1).unwrap()
            &&& p.2@[0] == spec_witness_note(inputs@, 2).unwrap()
            &&& p.2@[1] == spec_witness_note(inputs@, 3).unwrap()
        },
{
    if inputs.len() != NOTE_WITNESS_BYTES {
        return None;
    }
    let l0 = read_u64_at(inputs, 0);
    let l1 = read_u64_at(inputs, 8);
    let l2 = read_u64_at(inputs, 16);
    let l3 = read_u64_at(inputs, 24);
    proof {
        let s = inputs@.subrange(0, 32);
        assert(s.subrange(0, 8) =~= inputs@.subrange(0, 8));
        assert(s.subrange(8, 16) =~= inputs@.subrange(8, 16));
        assert(s.subrange(16, 24) =~= inputs@.subrange(16, 24));
        assert(s.subrange(24, 32) =~= inputs@.subrange(24, 32));
    }
    let owned = FieldElement { l0, l1, l2, l3 };
    let seg0 = subvec(inputs, 32, 235);
    let n0 = match decode_note(&seg0) {
        Some(n) => n,
        None => {
            return None;
        },
    };
    let seg1 = subvec(inputs, 235, 438);
    let n1 = match decode_note(&seg1) {
        Some(n) => n,
        None => {
            return None;
        },
    };
    let seg2 = subvec(inputs, 438, 641);
    let n2 = match decode_note(&seg2) {
        Some(n) => n,
        None => {
            return None;
        },
    };
    let seg3 = subvec(inputs, 641, 844);
    let n3 = match decode_note(&seg3) {
        Some(n) => n,
        None => {
            return None;
        },
    };
    Some((owned, [n0, n1], [n2, n3]))
}

/// The bytecode of an application: its governing predicate and the
/// auxiliary dynamic predicates of one note.
#[derive(Clone, Debug)]
pub struct ApplicationByteCode {
    /// The governing predicate.
    pub app_vp_bytecode: ValidityPredicateByteCode,
    /// The auxiliary predicates.
    pub dynamic_vp_bytecode: Vec<ValidityPredicateByteCode>,
}

/// The uniform proof bundle of one note: the governing predicate's
/// verifying info and one per auxiliary predicate.
#[derive(Clone, Debug)]
pub struct NoteVPVerifyingInfoSet {
    /// The governing predicate's verifying info.
    pub app_vp_verifying_info: VPVerifyingInfo,
    /// The auxiliary predicates' verifying infos.
    pub app_dynamic_vp_verifying_info: Vec<VPVerifyingInfo>,
}

impl NoteVPVerifyingInfoSet {
    /// Bundles a governing proof with its auxiliary proofs.
    pub fn new(
        app_vp_verifying_info: VPVerifyingInfo,
        app_dynamic_vp_verifying_info: Vec<VPVerifyingInfo>,
    ) -> (r: NoteVPVerifyingInfoSet)
        ensures
            r.app_vp_verifying_info == app_vp_verifying_info,
            r.app_dynamic_vp_verifying_info == app_dynamic_vp_verifying_info,
    {
        NoteVPVerifyingInfoSet { app_vp_verifying_info, app_dynamic_vp_verifying_info }
    }
}

/// The first proof error among a sequence of bytecodes, if any.
pub open spec fn spec_first_dynamic_error(s: Seq<ValidityPredicateByteCode>, i: int) -> Option<
    TransactionError,
>
    decreases s.len() - i,
{
    if i < 0 || i >= s.len() {
        None
    } else if s[i].spec_proof_error() is Some {
        s[i].spec_proof_error()
    } else {
        spec_first_dynamic_error(s, i + 1)
    }
}

impl ApplicationByteCode {
    /// Pairs a governing predicate with its auxiliaries.
    pub fn new(
        app_vp_bytecode: ValidityPredicateByteCode,
        dynamic_vp_bytecode: Vec<ValidityPredicateByteCode>,
    ) -> (r: ApplicationByteCode)
        ensures
            r.app_vp_bytecode == app_vp_bytecode,
            r.dynamic_vp_bytecode == dynamic_vp_bytecode,
    {
        ApplicationByteCode { app_vp_bytecode, dynamic_vp_bytecode }
    }

    /// Why proving this application fails, if it does: the governing
    /// predicate's error, else the first auxiliary's.
    pub open spec fn spec_proofs_error(&self) -> Option<TransactionError> {
        if self.app_vp_bytecode.spec_proof_error() is Some {
            self.app_vp_bytecode.spec_proof_error()
        } else {
            spec_first_dynamic_error(self.dynamic_vp_bytecode@, 0)
        }
    }

    /// Proves the governing predicate and every auxiliary one, failing
    /// fast on the first predicate whose witness is rejected.
    pub fn generate_proofs(self) -> (r: Result<NoteVPVerifyingInfoSet, TransactionError>)
        ensures
            r is Ok <==> self.spec_proofs_error() is None,
            r matches Err(e) ==> Some(e) == self.spec_proofs_error(),
            r matches Ok(s) ==> {
                &&& s.app_vp_verifying_info.spec_valid()
                &&& s.app_vp_verifying_info.vk@ == self.app_vp_bytecode.spec_vk()
                &&& views_of(s.app_vp_verifying_info.instance@)
                    == self.app_vp_bytecode.spec_instance()
                &&& s.app_dynamic_vp_verifying_info@.len() == self.dynamic_vp_bytecode@.len()
                &&& forall|i: int|
                    0 <= i < s.app_dynamic_vp_verifying_info@.len() ==> {
                        &&& (#[trigger] s.app_dynamic_vp_verifying_info@[i]).spec_valid()
                        &&& s.app_dynamic_vp_verifying_info@[i].vk@
                            == self.dynamic_vp_bytecode@[i].spec_vk()
                        &&& views_of(s.app_dynamic_vp_verifying_info@[i].instance@)
                            == self.dynamic_vp_bytecode@[i].spec_instance()
                    }
            },
    {
        let app_bc = self.app_vp_bytecode;
        let mut rest = self.dynamic_vp_bytecode;
        let ghost orig = rest@;
        let app_vp_verifying_info = match app_bc.generate_proof() {
            Ok(v) => v,
            Err(e) => {
                return Err(e);
            },
        };
        let mut dynamic_infos: Vec<VPVerifyingInfo> = Vec::new();
        while rest.len() > 0
            invariant
                orig == self.dynamic_vp_bytecode@,
                self.app_vp_bytecode.spec_proof_error() is None,
                dynamic_infos@.len() + rest@.len() == orig.len(),
                rest@ == orig.subrange(dynamic_infos@.len() as int, orig.len() as int),
                spec_first_dynamic_error(orig, 0) == spec_first_dynamic_error(
                    orig,
                    dynamic_infos@.len() as int,
                ),
                forall|j: int|
                    0 <= j < dynamic_infos@.len() ==> {
                        &&& (#[trigger] dynamic_infos@[j]).spec_valid()
                        &&& dynamic_infos@[j].vk@ == orig[j].spec_vk()
                        &&& views_of(dynamic_infos@[j].instance@) == orig[j].spec_instance()
                    },
            decreases rest@.len(),
        {
            let ghost idx = dynamic_infos@.len() as int;
            let bc = rest.remove(0);
            proof {
                assert(bc == orig[idx]);
            }
            match bc.generate_proof() {
                Ok(v) => {
                    dynamic_infos.push(v);
                },
                Err(e) => {
                    proof {
                        assert(bc.spec_proof_error() == Some(e));
                        assert(orig[idx].spec_proof_error() == Some(e));
                        assert(0 <= idx < orig.len());
                        assert(spec_first_dynamic_error(orig, idx) == Some(e));
                        assert(orig == self.dynamic_vp_bytecode@);
                        assert(self.app_vp_bytecode.spec_proof_error() is None);
                        assert(self.spec_proofs_error() == spec_first_dynamic_error(orig, 0));
                    }
                    return Err(e);
                },
            }
            proof {
                assert(rest@ =~= orig.subrange(idx + 1, orig.len() as int));
                assert(spec_first_dynamic_error(orig, idx) == spec_first_dynamic_error(
                    orig,
                    idx + 1,
                ));
            }
        }
        proof {
            assert(spec_first_dynamic_error(orig, orig.len() as int) is None);
        }
        Ok(NoteVPVerifyingInfoSet {
            app_vp_verifying_info,
            app_dynamic_vp_verifying_info: dynamic_infos,
        })
    }
}

/// One validity predicate ready to prove: portable bytecode or a native
/// circuit instance. The dispatcher below maps each to its own compile and
/// prove path, returning the same uniform verifying info for all.
#[derive(Clone, Debug)]
pub enum ValidityPredicateInstance {
    /// Portable bytecode with its serialized witness.
    ByteCode(ValidityPredicateByteCode),
    /// The native no-op predicate.
    Trivial(TrivialValidityPredicateCircuit),
    /// The native balance predicate.
    Balance(BalanceValidityPredicate),
    /// The native signature-verification predicate.
    SignatureVerification(SignatureVerificationValidityPredicateCircuit),
    /// The native partial-fulfillment intent predicate.
    PartialFulfillmentIntent(PartialFulfillmentIntentValidityPredicateCircuit),
}

impl ValidityPredicateInstance {
    /// Why proving this predicate fails, if it does: its witness does not
    /// satisfy its constraints, or its bytecode does not compile.
    pub open spec fn spec_proof_error(&self) -> Option<TransactionError> {
        match self {
            ValidityPredicateInstance::ByteCode(bc) => bc.spec_proof_error(),
            ValidityPredicateInstance::Trivial(c) => if spec_inputs_spendable(c.input_notes) {
                None
            } else {
                Some(TransactionError::WitnessError)
            },
            ValidityPredicateInstance::Balance(c) => if spec_inputs_spendable(c.input_notes)
                && c.spec_satisfied() {
                None
            } else {
                Some(TransactionError::WitnessError)
            },
            ValidityPredicateInstance::SignatureVerification(c) => if c.spec_satisfied() {
                None
            } else {
                Some(TransactionError::WitnessError)
            },
            ValidityPredicateInstance::PartialFulfillmentIntent(c) => if spec_inputs_spendable(
                c.input_notes,
            ) && c.spec_satisfied() {
                None
            } else {
                Some(TransactionError::WitnessError)
            },
        }
    }

    /// The verifying-key digest identifying the predicate circuit.
    pub open spec fn spec_vk(&self) -> Limbs {
        match self {
            ValidityPredicateInstance::ByteCode(bc) => bc.spec_vk(),
            ValidityPredicateInstance::Trivial(_) => spec_trivial_vk(),
            ValidityPredicateInstance::Balance(_) => poseidon2_of(
                (VK_TAG, 0, 0, 0),
                FieldElement::spec_from_u64(1)@,
            ),
            ValidityPredicateInstance::SignatureVerification(_) => poseidon2_of(
                (VK_TAG, 0, 0, 0),
                FieldElement::spec_from_u64(2)@,
            ),
            ValidityPredicateInstance::PartialFulfillmentIntent(_) => poseidon2_of(
                (VK_TAG, 0, 0, 0),
                FieldElement::spec_from_u64(3)@,
            ),
        }
    }

    /// The public instance the predicate proves: the mandatory instance of
    /// its witness notes, or the portable witness values.
    pub open spec fn spec_instance(&self) -> Seq<Limbs> {
        match self {
            ValidityPredicateInstance::ByteCode(bc) => bc.spec_instance(),
            ValidityPredicateInstance::Trivial(c) => spec_mandatory_instance(
                c.owned_note_pub_id@,
                c.input_notes,
                c.output_notes,
            ),
            ValidityPredicateInstance::Balance(c) => spec_mandatory_instance(
                FieldElement::spec_from_u64(0)@,
                c.input_notes,
                c.output_notes,
            ),
            ValidityPredicateInstance::SignatureVerification(c) => spec_mandatory_instance(
                c.owned_note_pub_id@,
                c.input_notes,
                c.output_notes,
            ),
            ValidityPredicateInstance::PartialFulfillmentIntent(c) => spec_mandatory_instance(
                c.owned_note_pub_id@,
                c.input_notes,
                c.output_notes,
            ),
        }
    }

    /// Dispatches on the representation: checks the witness against the
    /// predicate's own constraints, failing fast before any proof is
    /// produced, and binds the verifying key to the public instance.
    pub fn generate_proof(self) -> (r: Result<VPVerifyingInfo, TransactionError>)
        ensures
            r is Ok <==> self.spec_proof_error() is None,
            r matches Err(e) ==> Some(e) == self.spec_proof_error(),
            r matches Ok(v) ==> v.spec_valid() && v.vk@ == self.spec_vk() && views_of(v.instance@)
                == self.spec_instance(),
    {
        match self {
            ValidityPredicateInstance::ByteCode(bc) => bc.generate_proof(),
            ValidityPredicateInstance::Trivial(c) => {
                let instance = match mandatory_instance(
                    &c.owned_note_pub_id,
                    &c.input_notes,
                    &c.output_notes,
                ) {
                    Ok(v) => v,
                    Err(e) => {
                        return Err(e);
                    },
                };
                let tag = FieldElement::from_u64(VK_TAG);
                let zero = FieldElement::zero();
                let vk = poseidon2(&tag, &zero);
                Ok(make_verifying_info(vk, instance))
            },
            ValidityPredicateInstance::Balance(c) => {
                let instance = match mandatory_instance(
                    &FieldElement::zero(),
                    &c.input_notes,
                    &c.output_notes,
                ) {
                    Ok(v) => v,
                    Err(e) => {
                        return Err(e);
                    },
                };
                if !c.check() {
                    return Err(TransactionError::WitnessError);
                }
                let tag = FieldElement::from_u64(VK_TAG);
                let one = FieldElement::from_u64(1);
                let vk = poseidon2(&tag, &one);
                Ok(make_verifying_info(vk, instance))
            },
            ValidityPredicateInstance::SignatureVerification(c) => {
                if !c.check() {
                    return Err(TransactionError::WitnessError);
                }
                let instance = match mandatory_instance(
                    &c.owned_note_pub_id,
                    &c.input_notes,
                    &c.output_notes,
                ) {
                    Ok(v) => v,
                    Err(e) => {
                        proof {
                            assert(false);
                        }
                        return Err(e);
                    },
                };
                let tag = FieldElement::from_u64(VK_TAG);
                let two = FieldElement::from_u64(2);
                let vk = poseidon2(&tag, &two);
                Ok(make_verifying_info(vk, instance))
            },
            ValidityPredicateInstance::PartialFulfillmentIntent(c) => {
                let instance = match mandatory_instance(
                    &c.owned_note_pub_id,
                    &c.input_notes,
                    &c.output_notes,
                ) {
                    Ok(v) => v,
                    Err(e) => {
                        return Err(e);
                    },
                };
                if !c.check() {
                    return Err(TransactionError::WitnessError);
                }
                let tag = FieldElement::from_u64(VK_TAG);
                let three = FieldElement::from_u64(3);
                let vk = poseidon2(&tag, &three);
                Ok(make_verifying_info(vk, instance))
            },
        }
    }
}

/// The tag byte of a circuit representation in the serialized form.
pub open spec fn spec_representation_tag(c: &ValidityPredicateRepresentation) -> u8 {
    match c {
        ValidityPredicateRepresentation::VampIR(_) => 0u8,
        ValidityPredicateRepresentation::Trivial => 1u8,
    }
}

/// What the stable byte form of a predicate bytecode is: the
/// representation tag, the length-framed representation payload where one
/// exists, and the length-framed witness inputs.
pub open spec fn spec_bytecode_bytes(bc: &ValidityPredicateByteCode) -> Seq<u8> {
    match &bc.circuit {
        ValidityPredicateRepresentation::VampIR(p) => seq![0u8]
            + vstd::bytes::spec_u64_to_le_bytes(p@.len() as u64) + p@
            + vstd::bytes::spec_u64_to_le_bytes(bc.inputs@.len() as u64) + bc.inputs@,
        ValidityPredicateRepresentation::Trivial => seq![1u8] + vstd::bytes::spec_u64_to_le_bytes(
            bc.inputs@.len() as u64,
        ) + bc.inputs@,
    }
}

impl ValidityPredicateByteCode {
    /// Serializes the bytecode into its stable byte form.
    pub fn to_bytes(&self) -> (r: Vec<u8>)
        ensures
            r@ == spec_bytecode_bytes(self),
    {
        let mut out: Vec<u8> = Vec::new();
        match &self.circuit {
            ValidityPredicateRepresentation::VampIR(p) => {
                out.push(0u8);
                push_len_framed(&mut out, p);
                push_len_framed(&mut out, &self.inputs);
                proof {
                    assert(out@ =~= spec_bytecode_bytes(self));
                }
            },
            ValidityPredicateRepresentation::Trivial => {
                out.push(1u8);
                push_len_framed(&mut out, &self.inputs);
                proof {
                    assert(out@ =~= spec_bytecode_bytes(self));
                }
            },
        }
        out
    }

    /// Deserializes a bytecode from its stable byte form; yields nothing
    /// exactly when the bytes are well-formed the encoding of no bytecode.
    pub fn from_bytes(bytes: &Vec<u8>) -> (r: Option<ValidityPredicateByteCode>)
        ensures
            r is Some <==> spec_bytecode_bytes_wf(bytes@),
            r matches Some(bc) ==> spec_bytecode_bytes(&bc) == bytes@,
    {
        if bytes.len() < 9 {
            return None;
        }
        let tag = bytes[0];
        if tag == 0 {
            let plen64 = read_u64_at(bytes, 1);
            if (plen64 as u128) + 17 > bytes.len() as u128 {
                return None;
            }
            let plen: usize = plen64 as usize;
            let ilen64 = read_u64_at(bytes, 9 + plen);
            if ilen64 as u128 != (bytes.len() - 17 - plen) as u128 {
                return None;
            }
            let payload = subvec(bytes, 9, 9 + plen);
            let inputs = subvec(bytes, 17 + plen, bytes.len());
            let bc = ValidityPredicateByteCode {
                circuit: ValidityPredicateRepresentation::VampIR(payload),
                inputs,
            };
            proof {
                vstd::bytes::lemma_auto_spec_u64_to_from_le_bytes();
                assert(spec_bytecode_bytes(&bc) =~= bytes@);
            }
            Some(bc)
        } else if tag == 1 {
            let ilen64 = read_u64_at(bytes, 1);
            if ilen64 as u128 != (bytes.len() - 9) as u128 {
                return None;
            }
            let inputs = subvec(bytes, 9, bytes.len());
            let bc = ValidityPredicateByteCode {
                circuit: ValidityPredicateRepresentation::Trivial,
                inputs,
            };
            proof {
                vstd::bytes::lemma_auto_spec_u64_to_from_le_bytes();
                assert(spec_bytecode_bytes(&bc) =~= bytes@);
            }
            Some(bc)
        } else {
            None
        }
    }
}

/// Whether a byte string has the shape of an encoded predicate bytecode:
/// a known tag and length frames that account for the whole string.
pub open spec fn spec_bytecode_bytes_wf(s: Seq<u8>) -> bool {
    if s.len() < 9 {
        false
    } else if s[0] == 0u8 {
        let plen = vstd::bytes::spec_u64_from_le_bytes(s.subrange(1, 9)) as int;
        &&& s.len() >= 17 + plen
        &&& vstd::bytes::spec_u64_from_le_bytes(s.subrange(9 + plen, 17 + plen)) == s.len() - 17
            - plen
    } else if s[0] == 1u8 {
        vstd::bytes::spec_u64_from_le_bytes(s.subrange(1, 9)) == s.len() - 9
    } else {
        false
    }
}

/// Appends a length-framed byte string.
fn push_len_framed(out: &mut Vec<u8>, data: &Vec<u8>)
    ensures
        final(out)@ == old(out)@ + vstd::bytes::spec_u64_to_le_bytes(data@.len() as u64) + data@,
{
    let mut len_bytes = vstd::bytes::u64_to_le_bytes(data.len() as u64);
    out.append(&mut len_bytes);
    let mut i: usize = 0;
    let ghost mid = out@;
    while i < data.len()
        invariant
            i <= data@.len(),
            out@ == mid + data@.take(i as int),
        decreases data@.len() - i,
    {
        let b = data[i];
        out.push(b);
        proof {
            assert(out@ =~= mid + data@.take(i + 1 as int));
        }
        i += 1;
    }
    proof {
        assert(out@ =~= mid + data@);
    }
}

/// Round trip: decoding the encoding of any predicate bytecode yields a
/// bytecode with the very same representation and witness bytes, so the
/// serialized form is lossless and stable.
pub proof fn lemma_bytecode_codec_roundtrip(
    b1: ValidityPredicateByteCode,
    b2: ValidityPredicateByteCode,
)
    requires
        spec_bytecode_bytes(&b1) == spec_bytecode_bytes(&b2),
    ensures
        spec_representation_tag(&b1.circuit) == spec_representation_tag(&b2.circuit),
        b1.inputs@ == b2.inputs@,
        b1.circuit matches ValidityPredicateRepresentation::VampIR(p1)
            ==> b2.circuit matches ValidityPredicateRepresentation::VampIR(p2) && p1@ == p2@,
{
    vstd::bytes::lemma_auto_spec_u64_to_from_le_bytes();
    let s1 = spec_bytecode_bytes(&b1);
    let s2 = spec_bytecode_bytes(&b2);
    assert(s1[0] == spec_representation_tag(&b1.circuit));
    assert(s2[0] == spec_representation_tag(&b2.circuit));
    match (&b1.circuit, &b2.circuit) {
        (
            ValidityPredicateRepresentation::VampIR(p1),
            ValidityPredicateRepresentation::VampIR(p2),
        ) => {
            assert(vstd::std_specs::vec::spec_vec_len(p1) == p1@.len()) by {
                vstd::std_specs::vec::axiom_spec_len(p1);
            }
            assert(vstd::std_specs::vec::spec_vec_len(p2) == p2@.len()) by {
                vstd::std_specs::vec::axiom_spec_len(p2);
            }
            let l1 = p1@.len() as u64;
            let l2 = p2@.len() as u64;
            assert(s1.subrange(1, 9) =~= vstd::bytes::spec_u64_to_le_bytes(l1));
            assert(s2.subrange(1, 9) =~= vstd::bytes::spec_u64_to_le_bytes(l2));
            assert(vstd::bytes::spec_u64_from_le_bytes(vstd::bytes::spec_u64_to_le_bytes(l1))
                == l1);
            assert(vstd::bytes::spec_u64_from_le_bytes(vstd::bytes::spec_u64_to_le_bytes(l2))
                == l2);
            assert(p1@.len() == p2@.len());
            let n = p1@.len() as int;
            assert(p1@ =~= s1.subrange(9, 9 + n));
            assert(p2@ =~= s2.subrange(9, 9 + n));
            assert(b1.inputs@ =~= s1.subrange(17 + n, s1.len() as int));
            assert(b2.inputs@ =~= s2.subrange(17 + n, s2.len() as int));
        },
        (
            ValidityPredicateRepresentation::Trivial,
            ValidityPredicateRepresentation::Trivial,
        ) => {
            assert(b1.inputs@ =~= s1.subrange(9, s1.len() as int));
            assert(b2.inputs@ =~= s2.subrange(9, s2.len() as int));
        },
        _ => {
            assert(false);
        },
    }
}

/// A length-framed byte string.
pub open spec fn spec_framed(s: Seq<u8>) -> Seq<u8> {
    vstd::bytes::spec_u64_to_le_bytes(s.len() as u64) + s
}

/// The concatenated framed encodings of a suffix of predicate bytecodes.
pub open spec fn spec_dynamic_bytecode_bytes(s: Seq<ValidityPredicateByteCode>, i: int) -> Seq<
    u8,
>
    decreases s.len() - i,
{
    if i < 0 || i >= s.len() {
        Seq::<u8>::empty()
    } else {
        spec_framed(spec_bytecode_bytes(&s[i])) + spec_dynamic_bytecode_bytes(s, i + 1)
    }
}

/// What the stable byte form of an application's full bytecode is: the
/// auxiliary count, then the framed governing predicate, then each framed
/// auxiliary predicate.
pub open spec fn spec_app_bytecode_bytes(ab: &ApplicationByteCode) -> Seq<u8> {
    vstd::bytes::spec_u64_to_le_bytes(ab.dynamic_vp_bytecode@.len() as u64) + spec_framed(
        spec_bytecode_bytes(&ab.app_vp_bytecode),
    ) + spec_dynamic_bytecode_bytes(ab.dynamic_vp_bytecode@, 0)
}

/// Whether the bytes from `off` on hold exactly `k` well-formed framed
/// bytecode chunks and nothing more.
pub open spec fn spec_app_chunks_wf(s: Seq<u8>, off: int, k: int) -> bool
    decreases k,
{
    if k <= 0 {
        k == 0 && off == s.len()
    } else if off + 8 > s.len() {
        false
    } else {
        let l = vstd::bytes::spec_u64_from_le_bytes(s.subrange(off, off + 8)) as int;
        &&& off + 8 + l <= s.len()
        &&& spec_bytecode_bytes_wf(s.subrange(off + 8, off + 8 + l))
        &&& spec_app_chunks_wf(s, off + 8 + l, k - 1)
    }
}

/// Whether a byte string has the shape of an encoded application
/// bytecode.
pub open spec fn spec_app_bytecode_bytes_wf(s: Seq<u8>) -> bool {
    &&& s.len() >= 8
    &&& spec_app_chunks_wf(
        s,
        8,
        vstd::bytes::spec_u64_from_le_bytes(s.subrange(0, 8)) as int + 1,
    )
}

impl ApplicationByteCode {
    /// Serializes the application bytecode into its stable byte form.
    pub fn to_bytes(&self) -> (r: Vec<u8>)
        ensures
            r@ == spec_app_bytecode_bytes(self),
    {
        let mut out: Vec<u8> = Vec::new();
        let mut count_bytes = vstd::bytes::u64_to_le_bytes(self.dynamic_vp_bytecode.len() as u64);
        out.append(&mut count_bytes);
        let gov = self.app_vp_bytecode.to_bytes();
        push_len_framed(&mut out, &gov);
        let ghost total = spec_app_bytecode_bytes(self);
        let ghost dyns = self.dynamic_vp_bytecode@;
        proof {
            assert(out@ + spec_dynamic_bytecode_bytes(dyns, 0) =~= total);
        }
        let mut i: usize = 0;
        while i < self.dynamic_vp_bytecode.len()
            invariant
                dyns == self.dynamic_vp_bytecode@,
                total == spec_app_bytecode_bytes(self),
                i <= dyns.len(),
                out@ + spec_dynamic_bytecode_bytes(dyns, i as int) == total,
            decreases dyns.len() - i,
        {
            let chunk = self.dynamic_vp_bytecode[i].to_bytes();
            let ghost pre = out@;
            push_len_framed(&mut out, &chunk);
            proof {
                assert(out@ =~= pre + spec_framed(spec_bytecode_bytes(&dyns[i as int])));
                assert(spec_dynamic_bytecode_bytes(dyns, i as int) == spec_framed(
                    spec_bytecode_bytes(&dyns[i as int]),
                ) + spec_dynamic_bytecode_bytes(dyns, i + 1));
                assert(out@ + spec_dynamic_bytecode_bytes(dyns, i + 1) =~= pre
                    + spec_dynamic_bytecode_bytes(dyns, i as int));
            }
            i += 1;
        }
        proof {
            assert(spec_dynamic_bytecode_bytes(dyns, dyns.len() as int) =~= Seq::<u8>::empty());
            assert(out@ =~= out@ + spec_dynamic_bytecode_bytes(dyns, dyns.len() as int));
        }
        out
    }

    /// Deserializes an application bytecode from its stable byte form;
    /// yields nothing exactly when the bytes encode none.
    pub fn from_bytes(bytes: &Vec<u8>) -> (r: Option<ApplicationByteCode>)
        ensures
            r is Some <==> spec_app_bytecode_bytes_wf(bytes@),
            r matches Some(ab) ==> spec_app_bytecode_bytes(&ab) == bytes@,
    {
        if bytes.len() < 8 {
            return None;
        }
        let count64 = read_u64_at(bytes, 0);
        let ghost c = count64 as int;
        let mut off: usize = 8;
        let gov = match read_framed_bytecode(bytes, &mut off) {
            Some(bc) => bc,
            None => {
                proof {
                    assert(!spec_app_chunks_wf(bytes@, 8, c + 1));
                }
                return None;
            },
        };
        proof {
            vstd::bytes::lemma_auto_spec_u64_to_from_le_bytes();
            let framed = spec_framed(spec_bytecode_bytes(&gov));
            assert(bytes@.subrange(8, off as int) == framed);
            assert(bytes@.subrange(8, 16) =~= framed.subrange(0, 8));
            assert(framed.subrange(0, 8) =~= vstd::bytes::spec_u64_to_le_bytes(
                spec_bytecode_bytes(&gov).len() as u64,
            ));
            assert(bytes@.subrange(16, off as int) =~= framed.subrange(8, framed.len() as int));
            assert(framed.subrange(8, framed.len() as int) =~= spec_bytecode_bytes(&gov));
            assert(spec_app_chunks_wf(bytes@, 8, c + 1) <==> spec_app_chunks_wf(
                bytes@,
                off as int,
                c,
            ));
        }
        let mut dynamics: Vec<ValidityPredicateByteCode> = Vec::new();
        proof {
            assert(spec_dynamic_bytecode_bytes(dynamics@, 0) =~= Seq::<u8>::empty());
            assert(bytes@.subrange(8, off as int) =~= spec_framed(spec_bytecode_bytes(&gov))
                + spec_dynamic_bytecode_bytes(dynamics@, 0));
        }
        let mut i: u64 = 0;
        while i < count64
            invariant
                bytes@.len() >= 8,
                c == count64 as int,
                count64 == vstd::bytes::spec_u64_from_le_bytes(bytes@.subrange(0, 8)),
                i <= count64,
                8 <= off <= bytes@.len(),
                dynamics@.len() == i,
                spec_app_chunks_wf(bytes@, 8, c + 1) <==> spec_app_chunks_wf(
                    bytes@,
                    off as int,
                    c - i,
                ),
                bytes@.subrange(8, off as int) == spec_framed(spec_bytecode_bytes(&gov))
                    + spec_dynamic_bytecode_bytes(dynamics@, 0),
            decreases count64 - i,
        {
            let ghost pre_off = off as int;
            let ghost pre_dyn = dynamics@;
            let bc = match read_framed_bytecode(bytes, &mut off) {
                Some(bc) => bc,
                None => {
                    proof {
                        assert(!spec_app_chunks_wf(bytes@, pre_off, c - i));
                    }
                    return None;
                },
            };
            proof {
                vstd::bytes::lemma_auto_spec_u64_to_from_le_bytes();
                let framed = spec_framed(spec_bytecode_bytes(&bc));
                assert(bytes@.subrange(pre_off, off as int) == framed);
                assert(bytes@.subrange(pre_off, pre_off + 8) =~= framed.subrange(0, 8));
                assert(framed.subrange(0, 8) =~= vstd::bytes::spec_u64_to_le_bytes(
                    spec_bytecode_bytes(&bc).len() as u64,
                ));
                assert(bytes@.subrange(pre_off + 8, off as int) =~= framed.subrange(
                    8,
                    framed.len() as int,
                ));
                assert(framed.subrange(8, framed.len() as int) =~= spec_bytecode_bytes(&bc));
                assert(spec_app_chunks_wf(bytes@, pre_off, c - i) <==> spec_app_chunks_wf(
                    bytes@,
                    off as int,
                    c - i - 1,
                ));
            }
            dynamics.push(bc);
            proof {
                assert(dynamics@ =~= pre_dyn.push(bc));
                lemma_dynamic_bytes_push(pre_dyn, bc);
                assert(bytes@.subrange(8, off as int) =~= bytes@.subrange(8, pre_off)
                    + bytes@.subrange(pre_off, off as int));
                assert(bytes@.subrange(8, off as int) =~= spec_framed(spec_bytecode_bytes(&gov))
                    + spec_dynamic_bytecode_bytes(dynamics@, 0)) by {
                    assert(spec_framed(spec_bytecode_bytes(&gov)) + spec_dynamic_bytecode_bytes(
                        pre_dyn,
                        0,
                    ) + spec_framed(spec_bytecode_bytes(&bc)) =~= spec_framed(
                        spec_bytecode_bytes(&gov),
                    ) + (spec_dynamic_bytecode_bytes(pre_dyn, 0) + spec_framed(
                        spec_bytecode_bytes(&bc),
                    )));
                }
            }
            i += 1;
        }
        if off != bytes.len() {
            proof {
                assert(!spec_app_chunks_wf(bytes@, off as int, 0));
            }
            return None;
        }
        let ab = ApplicationByteCode { app_vp_bytecode: gov, dynamic_vp_bytecode: dynamics };
        proof {
            vstd::bytes::lemma_auto_spec_u64_to_from_le_bytes();
            assert(spec_app_chunks_wf(bytes@, off as int, 0));
            assert(vstd::bytes::spec_u64_to_le_bytes(ab.dynamic_vp_bytecode@.len() as u64)
                =~= bytes@.subrange(0, 8));
            assert(bytes@ =~= bytes@.subrange(0, 8) + bytes@.subrange(8, bytes@.len() as int));
            assert(bytes@.subrange(8, bytes@.len() as int) == spec_framed(spec_bytecode_bytes(
                &gov,
            )) + spec_dynamic_bytecode_bytes(dynamics@, 0));
            assert(spec_app_bytecode_bytes(&ab) =~= bytes@.subrange(0, 8) + (spec_framed(
                spec_bytecode_bytes(&gov),
            ) + spec_dynamic_bytecode_bytes(dynamics@, 0)));
            assert(spec_app_bytecode_bytes(&ab) =~= bytes@);
        }
        Some(ab)
    }
}

/// Appending a bytecode extends the concatenated encodings by its framed
/// encoding.
proof fn lemma_dynamic_bytes_push(s: Seq<ValidityPredicateByteCode>, b: ValidityPredicateByteCode)
    ensures
        spec_dynamic_bytecode_bytes(s.push(b), 0) == spec_dynamic_bytecode_bytes(s, 0)
            + spec_framed(spec_bytecode_bytes(&b)),
    decreases s.len(),
{
    if s.len() == 0 {
        assert(s.push(b)[0] == b);
        assert(s.push(b).len() == 1);
        assert(spec_dynamic_bytecode_bytes(s.push(b), 1) =~= Seq::<u8>::empty());
        assert(spec_dynamic_bytecode_bytes(s, 0) =~= Seq::<u8>::empty());
        assert(spec_dynamic_bytecode_bytes(s.push(b), 0) =~= spec_framed(spec_bytecode_bytes(&b)));
        assert(spec_dynamic_bytecode_bytes(s, 0) + spec_framed(spec_bytecode_bytes(&b))
            =~= spec_framed(spec_bytecode_bytes(&b)));
    } else {
        assert(s.push(b)[0] == s[0]);
        assert(s.push(b).skip(1) =~= s.skip(1).push(b));
        lemma_dynamic_bytes_push_from(s, b, 0);
    }
}

/// The suffix form of the same fact.
proof fn lemma_dynamic_bytes_push_from(
    s: Seq<ValidityPredicateByteCode>,
    b: ValidityPredicateByteCode,
    i: int,
)
    requires
        0 <= i <= s.len(),
    ensures
        spec_dynamic_bytecode_bytes(s.push(b), i) == spec_dynamic_bytecode_bytes(s, i)
            + spec_framed(spec_bytecode_bytes(&b)),
    decreases s.len() - i,
{
    if i == s.len() {
        assert(s.push(b)[i] == b);
        assert(spec_dynamic_bytecode_bytes(s.push(b), i + 1) =~= Seq::<u8>::empty());
        assert(spec_dynamic_bytecode_bytes(s, i) =~= Seq::<u8>::empty());
        assert(spec_dynamic_bytecode_bytes(s.push(b), i) =~= spec_framed(
            spec_bytecode_bytes(&b),
        ));
        assert(spec_dynamic_bytecode_bytes(s, i) + spec_framed(spec_bytecode_bytes(&b))
            =~= spec_framed(spec_bytecode_bytes(&b)));
    } else {
        assert(s.push(b)[i] == s[i]);
        lemma_dynamic_bytes_push_from(s, b, i + 1);
        assert(spec_dynamic_bytecode_bytes(s.push(b), i) =~= spec_framed(spec_bytecode_bytes(
            &s[i],
        )) + spec_dynamic_bytecode_bytes(s.push(b), i + 1));
        assert(spec_dynamic_bytecode_bytes(s, i) + spec_framed(spec_bytecode_bytes(&b))
            =~= spec_framed(spec_bytecode_bytes(&s[i])) + (spec_dynamic_bytecode_bytes(s, i + 1)
            + spec_framed(spec_bytecode_bytes(&b))));
    }
}

/// Reads one framed bytecode at the cursor, advancing it; yields nothing
/// exactly when no well-formed framed chunk starts there.
fn read_framed_bytecode(bytes: &Vec<u8>, off: &mut usize) -> (r: Option<ValidityPredicateByteCode>)
    requires
        *old(off) <= bytes@.len(),
    ensures
        r is Some <==> {
            &&& *old(off) + 8 <= bytes@.len()
            &&& *old(off) + 8 + (vstd::bytes::spec_u64_from_le_bytes(
                bytes@.subrange(*old(off) as int, *old(off) + 8),
            ) as int) <= bytes@.len()
            &&& spec_bytecode_bytes_wf(
                bytes@.subrange(
                    *old(off) + 8,
                    *old(off) + 8 + (vstd::bytes::spec_u64_from_le_bytes(
                        bytes@.subrange(*old(off) as int, *old(off) + 8),
                    ) as int),
                ),
            )
        },
        r matches Some(bc) ==> {
            &&& *final(off) == *old(off) + 8 + spec_bytecode_bytes(&bc).len()
            &&& *final(off) <= bytes@.len()
            &&& bytes@.subrange(*old(off) as int, *final(off) as int) == spec_framed(
                spec_bytecode_bytes(&bc),
            )
        },
        r is None ==> *final(off) == *old(off),
{
    if bytes.len() - *off < 8 {
        return None;
    }
    let l64 = read_u64_at(bytes, *off);
    if (l64 as u128) > (bytes.len() - *off - 8) as u128 {
        return None;
    }
    let l: usize = l64 as usize;
    let chunk = subvec(bytes, *off + 8, *off + 8 + l);
    let bc = match ValidityPredicateByteCode::from_bytes(&chunk) {
        Some(bc) => bc,
        None => {
            return None;
        },
    };
    proof {
        vstd::bytes::lemma_auto_spec_u64_to_from_le_bytes();
        assert(bytes@.subrange(*off as int, *off + 8 + l) =~= spec_framed(
            spec_bytecode_bytes(&bc),
        ));
    }
    *off = *off + 8 + l;
    Some(bc)
}

} // verus!

