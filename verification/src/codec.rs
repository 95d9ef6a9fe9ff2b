//! The stable byte form of notes: a versioned, fixed-width encoding that
//! round-trips losslessly, so a note's commitment is unchanged by
//! serialization and deserialization.

use vstd::prelude::*;

use vstd::bytes::{
    lemma_auto_spec_u64_to_from_le_bytes, spec_u64_from_le_bytes, spec_u64_to_le_bytes,
    u64_from_le_bytes, u64_to_le_bytes,
};
use vstd::slice::slice_subrange;

use crate::field::{FieldElement, Limbs};
use crate::note::Note;
use crate::nullifier::{Nullifier, NullifierKeyContainer};

verus! {

/// The reserved version byte of the note encoding.
pub const NOTE_CODEC_VERSION: u8 = 1;

/// The byte length of an encoded note.
pub const NOTE_BYTES_LEN: usize = 203;

/// The four little-endian limbs of a field element, as 32 bytes.
pub open spec fn fe_bytes(l: Limbs) -> Seq<u8> {
    spec_u64_to_le_bytes(l.0) + spec_u64_to_le_bytes(l.1) + spec_u64_to_le_bytes(l.2)
        + spec_u64_to_le_bytes(l.3)
}

/// The limbs read back from 32 bytes.
pub open spec fn fe_from_bytes(s: Seq<u8>) -> Limbs
    recommends
        s.len() == 32,
{
    (
        spec_u64_from_le_bytes(s.subrange(0, 8)),
        spec_u64_from_le_bytes(s.subrange(8, 16)),
        spec_u64_from_le_bytes(s.subrange(16, 24)),
        spec_u64_from_le_bytes(s.subrange(24, 32)),
    )
}

/// The tag byte of a spending authority: key or commitment.
pub open spec fn nk_tag(nk: NullifierKeyContainer) -> u8 {
    match nk {
        NullifierKeyContainer::Key(_) => 1u8,
        NullifierKeyContainer::Commitment(_) => 2u8,
    }
}

/// The field element inside a spending authority.
pub open spec fn nk_field(nk: NullifierKeyContainer) -> Limbs {
    match nk {
        NullifierKeyContainer::Key(k) => k@,
        NullifierKeyContainer::Commitment(c) => c@,
    }
}

/// What the byte encoding of a note is: a version byte followed by every
/// field at a fixed offset.
pub open spec fn spec_note_bytes(n: Note) -> Seq<u8> {
    seq![NOTE_CODEC_VERSION] + fe_bytes(n.app_descriptor@) + fe_bytes(n.app_data_dynamic@)
        + spec_u64_to_le_bytes(n.value) + seq![nk_tag(n.nk_container)] + fe_bytes(
        nk_field(n.nk_container),
    ) + fe_bytes(n.rho@) + fe_bytes(n.psi@) + fe_bytes(n.random_seed@) + seq![
        if n.is_merkle_checked {
            1u8
        } else {
            0u8
        },
    ]
}

/// A field element from limbs.
pub open spec fn fe_of_limbs(l: Limbs) -> FieldElement {
    FieldElement { l0: l.0, l1: l.1, l2: l.2, l3: l.3 }
}

/// What decoding a byte string yields: the note it encodes, or nothing if
/// it encodes none.
pub open spec fn spec_decode_note(s: Seq<u8>) -> Option<Note> {
    if s.len() != NOTE_BYTES_LEN {
        None
    } else if s[0] != NOTE_CODEC_VERSION {
        None
    } else if s[73] != 1u8 && s[73] != 2u8 {
        None
    } else if s[202] != 0u8 && s[202] != 1u8 {
        None
    } else {
        let nk_fe = fe_of_limbs(fe_from_bytes(s.subrange(74, 106)));
        Some(
            Note {
                app_descriptor: fe_of_limbs(fe_from_bytes(s.subrange(1, 33))),
                app_data_dynamic: fe_of_limbs(fe_from_bytes(s.subrange(33, 65))),
                value: spec_u64_from_le_bytes(s.subrange(65, 73)),
                nk_container: if s[73] == 1u8 {
                    NullifierKeyContainer::Key(nk_fe)
                } else {
                    NullifierKeyContainer::Commitment(nk_fe)
                },
                rho: Nullifier(fe_of_limbs(fe_from_bytes(s.subrange(106, 138)))),
                psi: fe_of_limbs(fe_from_bytes(s.subrange(138, 170))),
                random_seed: fe_of_limbs(fe_from_bytes(s.subrange(170, 202))),
                is_merkle_checked: s[202] == 1u8,
            },
        )
    }
}

/// Appends the little-endian bytes of a machine word.
fn push_u64(out: &mut Vec<u8>, v: u64)
    ensures
        final(out)@ == old(out)@ + spec_u64_to_le_bytes(v),
{
    let mut b = u64_to_le_bytes(v);
    out.append(&mut b);
}

/// Appends the 32 bytes of a field element.
pub fn push_fe(out: &mut Vec<u8>, f: &FieldElement)
    ensures
        final(out)@ == old(out)@ + fe_bytes(f@),
{
    push_u64(out, f.l0);
    push_u64(out, f.l1);
    push_u64(out, f.l2);
    push_u64(out, f.l3);
    proof {
        assert(out@ =~= old(out)@ + fe_bytes(f@));
    }
}

/// Serializes a note into its stable byte form.
pub fn encode_note(n: &Note) -> (r: Vec<u8>)
    ensures
        r@ == spec_note_bytes(*n),
        r@.len() == NOTE_BYTES_LEN,
{
    let mut out: Vec<u8> = Vec::new();
    out.push(NOTE_CODEC_VERSION);
    push_fe(&mut out, &n.app_descriptor);
    push_fe(&mut out, &n.app_data_dynamic);
    push_u64(&mut out, n.value);
    let (tag, nk_fe) = match &n.nk_container {
        NullifierKeyContainer::Key(k) => (1u8, *k),
        NullifierKeyContainer::Commitment(c) => (2u8, *c),
    };
    out.push(tag);
    push_fe(&mut out, &nk_fe);
    push_fe(&mut out, &n.rho.0);
    push_fe(&mut out, &n.psi);
    push_fe(&mut out, &n.random_seed);
    out.push(if n.is_merkle_checked { 1u8 } else { 0u8 });
    proof {
        lemma_auto_spec_u64_to_from_le_bytes();
        assert(out@ =~= spec_note_bytes(*n));
    }
    out
}

/// Reads a machine word at a byte offset.
fn read_u64(bytes: &Vec<u8>, off: usize) -> (r: u64)
    requires
        off + 8 <= bytes@.len(),
        bytes@.len() <= usize::MAX,
    ensures
        r == spec_u64_from_le_bytes(bytes@.subrange(off as int, off as int + 8)),
{
    u64_from_le_bytes(slice_subrange(bytes.as_slice(), off, off + 8))
}

/// Reads a field element at a byte offset.
fn read_fe(bytes: &Vec<u8>, off: usize) -> (r: FieldElement)
    requires
        off + 32 <= bytes@.len(),
        bytes@.len() <= usize::MAX,
    ensures
        r == fe_of_limbs(fe_from_bytes(bytes@.subrange(off as int, off as int + 32))),
{
    let l0 = read_u64(bytes, off);
    let l1 = read_u64(bytes, off + 8);
    let l2 = read_u64(bytes, off + 16);
    let l3 = read_u64(bytes, off + 24);
    proof {
        let s = bytes@.subrange(off as int, off as int + 32);
        assert(s.subrange(0, 8) =~= bytes@.subrange(off as int, off as int + 8));
        assert(s.subrange(8, 16) =~= bytes@.subrange(off as int + 8, off as int + 16));
        assert(s.subrange(16, 24) =~= bytes@.subrange(off as int + 16, off as int + 24));
        assert(s.subrange(24, 32) =~= bytes@.subrange(off as int + 24, off as int + 32));
    }
    FieldElement { l0, l1, l2, l3 }
}

/// Deserializes a note from its stable byte form; yields nothing exactly
/// when the bytes encode no note.
pub fn decode_note(bytes: &Vec<u8>) -> (r: Option<Note>)
    ensures
        r == spec_decode_note(bytes@),
{
    if bytes.len() != NOTE_BYTES_LEN {
        return None;
    }
    let version = bytes[0];
    if version != NOTE_CODEC_VERSION {
        return None;
    }
    let tag = bytes[73];
    if tag != 1 && tag != 2 {
        return None;
    }
    let mb = bytes[202];
    if mb != 0 && mb != 1 {
        return None;
    }
    let nk_fe = read_fe(bytes, 74);
    let n = Note {
        app_descriptor: read_fe(bytes, 1),
        app_data_dynamic: read_fe(bytes, 33),
        value: read_u64(bytes, 65),
        nk_container: if tag == 1 {
            NullifierKeyContainer::Key(nk_fe)
        } else {
            NullifierKeyContainer::Commitment(nk_fe)
        },
        rho: Nullifier(read_fe(bytes, 106)),
        psi: read_fe(bytes, 138),
        random_seed: read_fe(bytes, 170),
        is_merkle_checked: mb == 1,
    };
    Some(n)
}

/// Reading back the bytes of a field element yields its limbs.
proof fn lemma_fe_roundtrip(l: Limbs)
    ensures
        fe_bytes(l).len() == 32,
        fe_from_bytes(fe_bytes(l)) == l,
{
    lemma_auto_spec_u64_to_from_le_bytes();
    let s = fe_bytes(l);
    assert(s.subrange(0, 8) =~= spec_u64_to_le_bytes(l.0));
    assert(s.subrange(8, 16) =~= spec_u64_to_le_bytes(l.1));
    assert(s.subrange(16, 24) =~= spec_u64_to_le_bytes(l.2));
    assert(s.subrange(24, 32) =~= spec_u64_to_le_bytes(l.3));
}

/// Round trip: decoding the encoding of any note yields that very note.
/// In particular the commitment, a function of the note's fields, is stable
/// under serialization and deserialization.
pub proof fn lemma_note_codec_roundtrip(n: Note)
    ensures
        spec_decode_note(spec_note_bytes(n)) == Some(n),
{
    lemma_auto_spec_u64_to_from_le_bytes();
    lemma_fe_roundtrip(n.app_descriptor@);
    lemma_fe_roundtrip(n.app_data_dynamic@);
    lemma_fe_roundtrip(nk_field(n.nk_container));
    lemma_fe_roundtrip(n.rho@);
    lemma_fe_roundtrip(n.psi@);
    lemma_fe_roundtrip(n.random_seed@);
    let s = spec_note_bytes(n);
    assert(s.len() == NOTE_BYTES_LEN);
    assert(s[0] == NOTE_CODEC_VERSION);
    assert(s[73] == nk_tag(n.nk_container));
    assert(s.subrange(1, 33) =~= fe_bytes(n.app_descriptor@));
    assert(s.subrange(33, 65) =~= fe_bytes(n.app_data_dynamic@));
    assert(s.subrange(65, 73) =~= spec_u64_to_le_bytes(n.value));
    assert(s.subrange(74, 106) =~= fe_bytes(nk_field(n.nk_container)));
    assert(s.subrange(106, 138) =~= fe_bytes(n.rho@));
    assert(s.subrange(138, 170) =~= fe_bytes(n.psi@));
    assert(s.subrange(170, 202) =~= fe_bytes(n.random_seed@));
    assert(s[202] == (if n.is_merkle_checked { 1u8 } else { 0u8 }));
    let m = spec_decode_note(s).unwrap();
    assert(m.app_descriptor == n.app_descriptor);
    assert(m.app_data_dynamic == n.app_data_dynamic);
    assert(m.value == n.value);
    assert(m.nk_container == n.nk_container);
    assert(m.rho == n.rho);
    assert(m.psi == n.psi);
    assert(m.random_seed == n.random_seed);
    assert(m.is_merkle_checked == n.is_merkle_checked);
}

} // verus!
