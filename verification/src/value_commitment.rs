//! Blinded value commitments: the public curve point binding one action's
//! net value, with a per-application value base so that different
//! applications can never be netted against each other.

use vstd::prelude::*;

use crate::codec::{fe_bytes, push_fe};
use crate::field::{
    hash_to_curve, hash_to_curve_of, point_add, point_add_of, point_mul, point_mul_of, point_neg,
    point_neg_of, point_x, point_x_of, point_y, point_y_of, CurvePoint, CurveScalar, FieldElement,
    Limbs,
};
use crate::note::Note;

verus! {

/// What the value base of an application is: a point derived from whether
/// the note is ordinary, its application descriptor, and its dynamic data.
pub open spec fn spec_value_base(is_normal: bool, app: Limbs, data: Limbs) -> Seq<u8> {
    hash_to_curve_of(
        "taiga:value-base"@,
        fe_bytes(app) + fe_bytes(data) + seq![
            if is_normal {
                1u8
            } else {
                0u8
            },
        ],
    )
}

/// What the blinding base of value commitments is.
pub open spec fn spec_blinding_base() -> Seq<u8> {
    hash_to_curve_of("taiga:blind-base"@, Seq::<u8>::empty())
}

/// What the net value commitment of one (spent, created) note pair is:
/// the spent value times its base, minus the created value times its base,
/// plus the blinding term.
pub open spec fn spec_net_value_commitment(
    input_note: Note,
    output_note: Note,
    blind_r: Limbs,
) -> Seq<u8> {
    let base_in = spec_value_base(
        input_note.is_merkle_checked,
        input_note.app_descriptor@,
        input_note.app_data_dynamic@,
    );
    let base_out = spec_value_base(
        output_note.is_merkle_checked,
        output_note.app_descriptor@,
        output_note.app_data_dynamic@,
    );
    point_add_of(
        point_add_of(
            point_mul_of(base_in, FieldElement::spec_from_u64(input_note.value)@),
            point_neg_of(point_mul_of(base_out, FieldElement::spec_from_u64(output_note.value)@)),
        ),
        point_mul_of(spec_blinding_base(), blind_r),
    )
}

/// Derives the per-application value base point.
pub fn derivate_value_base(is_normal: bool, app_descriptor: &FieldElement, data: &FieldElement)
    -> (r: CurvePoint)
    ensures
        r@ == spec_value_base(is_normal, app_descriptor@, data@),
{
    let mut msg: Vec<u8> = Vec::new();
    push_fe(&mut msg, app_descriptor);
    push_fe(&mut msg, data);
    msg.push(if is_normal { 1u8 } else { 0u8 });
    proof {
        assert(msg@ =~= fe_bytes(app_descriptor@) + fe_bytes(data@) + seq![
            if is_normal {
                1u8
            } else {
                0u8
            },
        ]);
        reveal_strlit("taiga:value-base");
        assert(vstd::utf8::is_ascii_chars("taiga:value-base"@));
        vstd::utf8::is_ascii_chars_encode_utf8("taiga:value-base"@);
    }
    hash_to_curve("taiga:value-base", msg.as_slice())
}

/// The blinded commitment to the net value moved by one action.
#[derive(Clone, Copy, Debug, PartialEq, Eq)]
pub struct NetValueCommitment(pub CurvePoint);

impl NetValueCommitment {
    /// Commits to the value difference of one spent and one created note,
    /// blinded by the given scalar.
    pub fn new(input_note: &Note, output_note: &Note, blind_r: &CurveScalar) -> (r:
        NetValueCommitment)
        ensures
            r.0@ == spec_net_value_commitment(*input_note, *output_note, blind_r@),
    {
        let base_in = derivate_value_base(
            input_note.is_merkle_checked,
            &input_note.app_descriptor,
            &input_note.app_data_dynamic,
        );
        let base_out = derivate_value_base(
            output_note.is_merkle_checked,
            &output_note.app_descriptor,
            &output_note.app_data_dynamic,
        );
        let v_in = CurveScalar::from_u64(input_note.value);
        let v_out = CurveScalar::from_u64(output_note.value);
        let term_in = point_mul(&base_in, &v_in);
        let term_out = point_neg(&point_mul(&base_out, &v_out));
        let empty: Vec<u8> = Vec::new();
        proof {
            assert(empty@ =~= Seq::<u8>::empty());
            reveal_strlit("taiga:blind-base");
            assert(vstd::utf8::is_ascii_chars("taiga:blind-base"@));
            vstd::utf8::is_ascii_chars_encode_utf8("taiga:blind-base"@);
        }
        let blind_base = hash_to_curve("taiga:blind-base", empty.as_slice());
        let blind_term = point_mul(&blind_base, blind_r);
        NetValueCommitment(point_add(&point_add(&term_in, &term_out), &blind_term))
    }

    /// The affine x-coordinate of the commitment (zero for the identity).
    pub fn get_x(&self) -> (r: FieldElement)
        ensures
            r@ == point_x_of(self.0@),
    {
        point_x(&self.0)
    }

    /// The affine y-coordinate of the commitment (zero for the identity).
    pub fn get_y(&self) -> (r: FieldElement)
        ensures
            r@ == point_y_of(self.0@),
    {
        point_y(&self.0)
    }
}

} // verus!
