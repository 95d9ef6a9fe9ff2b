//! Plain-value representations of the proving system's base field, scalar
//! field and curve points, together with the trusted bridge to the curve
//! arithmetic of the `pasta_curves` and `halo2_gadgets` crates.
//!
//! Every element is held as plain limbs (or encoded bytes), so that the
//! protocol logic above can be verified over structural values; the curve
//! library is reached only through the wrappers below, whose results are
//! named by uninterpreted functions of their arguments.

use vstd::prelude::*;

use ff::{FromUniformBytes, PrimeField};
use group::{Curve, Group, GroupEncoding};
use halo2_gadgets::poseidon::primitives as poseidon;
use pasta_curves::arithmetic::{CurveAffine, CurveExt};
use pasta_curves::pallas;

verus! {

/// The view of a field element or scalar: its four little-endian 64-bit limbs.
pub type Limbs = (u64, u64, u64, u64);

/// An element of the base field of the proving curve, as the four
/// little-endian limbs of its canonical representation.
#[derive(Clone, Copy, Debug, PartialEq, Eq, Structural, Hash)]
pub struct FieldElement {
    pub l0: u64,
    pub l1: u64,
    pub l2: u64,
    pub l3: u64,
}

impl View for FieldElement {
    type V = Limbs;

    open spec fn view(&self) -> Limbs {
        (self.l0, self.l1, self.l2, self.l3)
    }
}

/// An element of the scalar field of the proving curve, as the four
/// little-endian limbs of its canonical representation.
#[derive(Clone, Copy, Debug, PartialEq, Eq, Structural, Hash)]
pub struct CurveScalar {
    pub l0: u64,
    pub l1: u64,
    pub l2: u64,
    pub l3: u64,
}

impl View for CurveScalar {
    type V = Limbs;

    open spec fn view(&self) -> Limbs {
        (self.l0, self.l1, self.l2, self.l3)
    }
}

/// A point of the proving curve, as its 32-byte compressed encoding.
/// The identity encodes as 32 zero bytes.
#[derive(Clone, Copy, Debug, PartialEq, Eq)]
pub struct CurvePoint {
    pub bytes: [u8; 32],
}

impl View for CurvePoint {
    type V = Seq<u8>;

    open spec fn view(&self) -> Seq<u8> {
        self.bytes@
    }
}

impl FieldElement {
    /// The field element congruent to the given machine integer.
    pub open spec fn spec_from_u64(v: u64) -> FieldElement {
        FieldElement { l0: v, l1: 0, l2: 0, l3: 0 }
    }

    pub fn from_u64(v: u64) -> (r: FieldElement)
        ensures
            r == FieldElement::spec_from_u64(v),
    {
        FieldElement { l0: v, l1: 0, l2: 0, l3: 0 }
    }

    pub fn zero() -> (r: FieldElement)
        ensures
            r == FieldElement::spec_from_u64(0),
    {
        FieldElement { l0: 0, l1: 0, l2: 0, l3: 0 }
    }

    /// The field element encoding a boolean as zero or one.
    pub open spec fn spec_from_bool(v: bool) -> FieldElement {
        FieldElement::spec_from_u64(if v { 1u64 } else { 0u64 })
    }

    pub fn from_bool(v: bool) -> (r: FieldElement)
        ensures
            r == FieldElement::spec_from_bool(v),
    {
        FieldElement { l0: if v { 1 } else { 0 }, l1: 0, l2: 0, l3: 0 }
    }
}

impl CurveScalar {
    /// The scalar congruent to the given machine integer.
    pub open spec fn spec_from_u64(v: u64) -> CurveScalar {
        CurveScalar { l0: v, l1: 0, l2: 0, l3: 0 }
    }

    pub fn from_u64(v: u64) -> (r: CurveScalar)
        ensures
            r == CurveScalar::spec_from_u64(v),
    {
        CurveScalar { l0: v, l1: 0, l2: 0, l3: 0 }
    }
}

impl CurvePoint {
    /// Whether an encoding is the 32 zero bytes of the identity element.
    pub open spec fn spec_is_identity(p: Seq<u8>) -> bool {
        forall|i: int| 0 <= i < p.len() ==> p[i] == 0u8
    }

    pub fn is_identity(&self) -> (r: bool)
        ensures
            r == CurvePoint::spec_is_identity(self@),
    {
        let mut i: usize = 0;
        while i < 32
            invariant
                i <= 32,
                forall|j: int| 0 <= j < i ==> self.bytes@[j] == 0u8,
            decreases 32 - i,
        {
            if self.bytes[i] != 0 {
                return false;
            }
            i += 1;
        }
        true
    }

    /// Byte-for-byte equality of two point encodings.
    pub fn encoding_eq(&self, other: &CurvePoint) -> (r: bool)
        ensures
            r == (self@ == other@),
    {
        let mut i: usize = 0;
        while i < 32
            invariant
                i <= 32,
                forall|j: int| 0 <= j < i ==> self.bytes@[j] == other.bytes@[j],
            decreases 32 - i,
        {
            if self.bytes[i] != other.bytes[i] {
                assert(self@ != other@);
                return false;
            }
            i += 1;
        }
        proof {
            assert(self@ =~= other@);
        }
        true
    }
}

/// What the two-element Poseidon hash of the curve library returns.
pub uninterp spec fn poseidon2_of(a: Limbs, b: Limbs) -> Limbs;

/// What the four-element Poseidon hash of the curve library returns.
pub uninterp spec fn poseidon4_of(a: Limbs, b: Limbs, c: Limbs, d: Limbs) -> Limbs;

/// What the eight-element Poseidon hash of the curve library returns.
pub uninterp spec fn poseidon8_of(
    a: Limbs,
    b: Limbs,
    c: Limbs,
    d: Limbs,
    e: Limbs,
    f: Limbs,
    g: Limbs,
    h: Limbs,
) -> Limbs;

/// What the base-field addition of the curve library returns.
pub uninterp spec fn fp_add_of(a: Limbs, b: Limbs) -> Limbs;

/// What the base-field multiplication of the curve library returns.
pub uninterp spec fn fp_mul_of(a: Limbs, b: Limbs) -> Limbs;

/// What reinterpreting a base-field element in the scalar field returns.
pub uninterp spec fn mod_r_p_of(a: Limbs) -> Limbs;

/// What the scalar-field addition of the curve library returns.
pub uninterp spec fn scalar_add_of(a: Limbs, b: Limbs) -> Limbs;

/// What the scalar-field multiplication of the curve library returns.
pub uninterp spec fn scalar_mul_of(a: Limbs, b: Limbs) -> Limbs;

/// What multiplying the curve's generator by a scalar returns.
pub uninterp spec fn base_mul_of(s: Limbs) -> Seq<u8>;

/// What multiplying a curve point by a scalar returns.
pub uninterp spec fn point_mul_of(p: Seq<u8>, s: Limbs) -> Seq<u8>;

/// What adding two curve points returns.
pub uninterp spec fn point_add_of(p: Seq<u8>, q: Seq<u8>) -> Seq<u8>;

/// What negating a curve point returns.
pub uninterp spec fn point_neg_of(p: Seq<u8>) -> Seq<u8>;

/// What hashing a message to a curve point under a domain prefix returns.
pub uninterp spec fn hash_to_curve_of(domain: Seq<char>, msg: Seq<u8>) -> Seq<u8>;

/// What the affine x-coordinate of a curve point is (zero for the identity).
pub uninterp spec fn point_x_of(p: Seq<u8>) -> Limbs;

/// What the affine y-coordinate of a curve point is (zero for the identity).
pub uninterp spec fn point_y_of(p: Seq<u8>) -> Limbs;

/// Relies on the Poseidon sponge of halo2_gadgets (`poseidon::primitives::Hash`
/// over `P128Pow5T3`): a hash of two base-field elements, a function of its
/// arguments alone.
#[verifier::external_body]
pub fn poseidon2(a: &FieldElement, b: &FieldElement) -> (r: FieldElement)
    ensures
        r@ == poseidon2_of(a@, b@),
{
    let x = pallas::Base::from_raw([a.l0, a.l1, a.l2, a.l3]);
    let y = pallas::Base::from_raw([b.l0, b.l1, b.l2, b.l3]);
    let h = poseidon::Hash::<pallas::Base, poseidon::P128Pow5T3, poseidon::ConstantLength<2>, 3, 2>::init().hash([x, y]);
    let c = h.to_repr();
    FieldElement {
        l0: u64::from_le_bytes(c[0..8].try_into().unwrap()),
        l1: u64::from_le_bytes(c[8..16].try_into().unwrap()),
        l2: u64::from_le_bytes(c[16..24].try_into().unwrap()),
        l3: u64::from_le_bytes(c[24..32].try_into().unwrap()),
    }
}

/// Relies on the Poseidon sponge of halo2_gadgets: a hash of four base-field
/// elements, a function of its arguments alone.
#[verifier::external_body]
pub fn poseidon4(a: &FieldElement, b: &FieldElement, c: &FieldElement, d: &FieldElement) -> (r:
    FieldElement)
    ensures
        r@ == poseidon4_of(a@, b@, c@, d@),
{
    let m = [a, b, c, d].map(|v| pallas::Base::from_raw([v.l0, v.l1, v.l2, v.l3]));
    let h = poseidon::Hash::<pallas::Base, poseidon::P128Pow5T3, poseidon::ConstantLength<4>, 3, 2>::init().hash(m);
    let o = h.to_repr();
    FieldElement {
        l0: u64::from_le_bytes(o[0..8].try_into().unwrap()),
        l1: u64::from_le_bytes(o[8..16].try_into().unwrap()),
        l2: u64::from_le_bytes(o[16..24].try_into().unwrap()),
        l3: u64::from_le_bytes(o[24..32].try_into().unwrap()),
    }
}

/// Relies on the Poseidon sponge of halo2_gadgets: a hash of eight base-field
/// elements, a function of its arguments alone.
#[verifier::external_body]
#[allow(clippy::too_many_arguments)]
pub fn poseidon8(
    a: &FieldElement,
    b: &FieldElement,
    c: &FieldElement,
    d: &FieldElement,
    e: &FieldElement,
    f: &FieldElement,
    g: &FieldElement,
    h: &FieldElement,
) -> (r: FieldElement)
    ensures
        r@ == poseidon8_of(a@, b@, c@, d@, e@, f@, g@, h@),
{
    let m = [a, b, c, d, e, f, g, h].map(|v| pallas::Base::from_raw([v.l0, v.l1, v.l2, v.l3]));
    let o = poseidon::Hash::<pallas::Base, poseidon::P128Pow5T3, poseidon::ConstantLength<8>, 3, 2>::init().hash(m).to_repr();
    FieldElement {
        l0: u64::from_le_bytes(o[0..8].try_into().unwrap()),
        l1: u64::from_le_bytes(o[8..16].try_into().unwrap()),
        l2: u64::from_le_bytes(o[16..24].try_into().unwrap()),
        l3: u64::from_le_bytes(o[24..32].try_into().unwrap()),
    }
}

/// Relies on the base-field addition of pasta_curves, a function of its
/// arguments alone.
#[verifier::external_body]
pub fn fp_add(a: &FieldElement, b: &FieldElement) -> (r: FieldElement)
    ensures
        r@ == fp_add_of(a@, b@),
{
    let x = pallas::Base::from_raw([a.l0, a.l1, a.l2, a.l3]);
    let y = pallas::Base::from_raw([b.l0, b.l1, b.l2, b.l3]);
    let s = (x + y).to_repr();
    FieldElement {
        l0: u64::from_le_bytes(s[0..8].try_into().unwrap()),
        l1: u64::from_le_bytes(s[8..16].try_into().unwrap()),
        l2: u64::from_le_bytes(s[16..24].try_into().unwrap()),
        l3: u64::from_le_bytes(s[24..32].try_into().unwrap()),
    }
}

/// Relies on the base-field multiplication of pasta_curves, a function of
/// its arguments alone.
#[verifier::external_body]
pub fn fp_mul(a: &FieldElement, b: &FieldElement) -> (r: FieldElement)
    ensures
        r@ == fp_mul_of(a@, b@),
{
    let x = pallas::Base::from_raw([a.l0, a.l1, a.l2, a.l3]);
    let y = pallas::Base::from_raw([b.l0, b.l1, b.l2, b.l3]);
    let s = (x * y).to_repr();
    FieldElement {
        l0: u64::from_le_bytes(s[0..8].try_into().unwrap()),
        l1: u64::from_le_bytes(s[8..16].try_into().unwrap()),
        l2: u64::from_le_bytes(s[16..24].try_into().unwrap()),
        l3: u64::from_le_bytes(s[24..32].try_into().unwrap()),
    }
}

/// Relies on `Fq::from_uniform_bytes` of pasta_curves: reads the canonical
/// bytes of a base-field element as a scalar, a function of its argument
/// alone.
#[verifier::external_body]
pub fn mod_r_p(a: &FieldElement) -> (r: CurveScalar)
    ensures
        r@ == mod_r_p_of(a@),
{
    let x = pallas::Base::from_raw([a.l0, a.l1, a.l2, a.l3]);
    let mut wide = [0u8; 64];
    wide[0..32].copy_from_slice(&x.to_repr());
    let s = pallas::Scalar::from_uniform_bytes(&wide).to_repr();
    CurveScalar {
        l0: u64::from_le_bytes(s[0..8].try_into().unwrap()),
        l1: u64::from_le_bytes(s[8..16].try_into().unwrap()),
        l2: u64::from_le_bytes(s[16..24].try_into().unwrap()),
        l3: u64::from_le_bytes(s[24..32].try_into().unwrap()),
    }
}

/// Relies on the scalar-field addition of pasta_curves, a function of its
/// arguments alone.
#[verifier::external_body]
pub fn scalar_add(a: &CurveScalar, b: &CurveScalar) -> (r: CurveScalar)
    ensures
        r@ == scalar_add_of(a@, b@),
{
    let x = pallas::Scalar::from_raw([a.l0, a.l1, a.l2, a.l3]);
    let y = pallas::Scalar::from_raw([b.l0, b.l1, b.l2, b.l3]);
    let s = (x + y).to_repr();
    CurveScalar {
        l0: u64::from_le_bytes(s[0..8].try_into().unwrap()),
        l1: u64::from_le_bytes(s[8..16].try_into().unwrap()),
        l2: u64::from_le_bytes(s[16..24].try_into().unwrap()),
        l3: u64::from_le_bytes(s[24..32].try_into().unwrap()),
    }
}

/// Relies on the scalar-field multiplication of pasta_curves, a function of
/// its arguments alone.
#[verifier::external_body]
pub fn scalar_mul(a: &CurveScalar, b: &CurveScalar) -> (r: CurveScalar)
    ensures
        r@ == scalar_mul_of(a@, b@),
{
    let x = pallas::Scalar::from_raw([a.l0, a.l1, a.l2, a.l3]);
    let y = pallas::Scalar::from_raw([b.l0, b.l1, b.l2, b.l3]);
    let s = (x * y).to_repr();
    CurveScalar {
        l0: u64::from_le_bytes(s[0..8].try_into().unwrap()),
        l1: u64::from_le_bytes(s[8..16].try_into().unwrap()),
        l2: u64::from_le_bytes(s[16..24].try_into().unwrap()),
        l3: u64::from_le_bytes(s[24..32].try_into().unwrap()),
    }
}

/// Relies on the curve multiplication of pasta_curves applied to the group
/// generator, a function of its argument alone.
#[verifier::external_body]
pub fn base_mul(s: &CurveScalar) -> (r: CurvePoint)
    ensures
        r@ == base_mul_of(s@),
{
    let k = pallas::Scalar::from_raw([s.l0, s.l1, s.l2, s.l3]);
    CurvePoint { bytes: (pallas::Point::generator() * k).to_bytes() }
}

/// Relies on the curve multiplication of pasta_curves, a function of its
/// arguments alone. An argument that is no valid encoding yields the
/// identity encoding.
#[verifier::external_body]
pub fn point_mul(p: &CurvePoint, s: &CurveScalar) -> (r: CurvePoint)
    ensures
        r@ == point_mul_of(p@, s@),
{
    let q: Option<pallas::Point> = pallas::Point::from_bytes(&p.bytes).into();
    match q {
        Some(pt) => {
            let k = pallas::Scalar::from_raw([s.l0, s.l1, s.l2, s.l3]);
            CurvePoint { bytes: (pt * k).to_bytes() }
        },
        None => CurvePoint { bytes: [0u8; 32] },
    }
}

/// Relies on the curve addition of pasta_curves, a function of its arguments
/// alone. An argument that is no valid encoding yields the identity encoding.
#[verifier::external_body]
pub fn point_add(p: &CurvePoint, q: &CurvePoint) -> (r: CurvePoint)
    ensures
        r@ == point_add_of(p@, q@),
{
    let a: Option<pallas::Point> = pallas::Point::from_bytes(&p.bytes).into();
    let b: Option<pallas::Point> = pallas::Point::from_bytes(&q.bytes).into();
    match (a, b) {
        (Some(x), Some(y)) => CurvePoint { bytes: (x + y).to_bytes() },
        _ => CurvePoint { bytes: [0u8; 32] },
    }
}

/// Relies on the curve negation of pasta_curves, a function of its argument
/// alone. An argument that is no valid encoding yields the identity encoding.
#[verifier::external_body]
pub fn point_neg(p: &CurvePoint) -> (r: CurvePoint)
    ensures
        r@ == point_neg_of(p@),
{
    let a: Option<pallas::Point> = pallas::Point::from_bytes(&p.bytes).into();
    match a {
        Some(x) => CurvePoint { bytes: (-x).to_bytes() },
        None => CurvePoint { bytes: [0u8; 32] },
    }
}

/// Relies on `CurveExt::hash_to_curve` of pasta_curves: a point derived from
/// a domain prefix and a message, a function of its arguments alone. The
/// underlying hash-to-field asserts that the domain prefix is short
/// (`22 + "pallas".len() + domain.len() < 256` bytes), so domains of 228
/// bytes or more panic; the precondition excludes them.
#[verifier::external_body]
pub fn hash_to_curve(domain: &str, msg: &[u8]) -> (r: CurvePoint)
    requires
        vstd::utf8::encode_utf8(domain@).len() < 228,
    ensures
        r@ == hash_to_curve_of(domain@, msg@),
{
    let h = pallas::Point::hash_to_curve(domain);
    CurvePoint { bytes: h(msg).to_bytes() }
}

/// Relies on `CurveAffine::coordinates` of pasta_curves: the affine
/// x-coordinate of a point, a function of its argument alone. The identity,
/// and an argument that is no valid encoding, yield zero.
#[verifier::external_body]
pub fn point_x(p: &CurvePoint) -> (r: FieldElement)
    ensures
        r@ == point_x_of(p@),
{
    let q: Option<pallas::Point> = pallas::Point::from_bytes(&p.bytes).into();
    let c = q.and_then(
        |pt| Option::<pasta_curves::arithmetic::Coordinates<pallas::Affine>>::from(
            pt.to_affine().coordinates(),
        ),
    ).map(|xy| xy.x().to_repr()).unwrap_or([0u8; 32]);
    FieldElement {
        l0: u64::from_le_bytes(c[0..8].try_into().unwrap()),
        l1: u64::from_le_bytes(c[8..16].try_into().unwrap()),
        l2: u64::from_le_bytes(c[16..24].try_into().unwrap()),
        l3: u64::from_le_bytes(c[24..32].try_into().unwrap()),
    }
}

/// Relies on `CurveAffine::coordinates` of pasta_curves: the affine
/// y-coordinate of a point, a function of its argument alone. The identity,
/// and an argument that is no valid encoding, yield zero.
#[verifier::external_body]
pub fn point_y(p: &CurvePoint) -> (r: FieldElement)
    ensures
        r@ == point_y_of(p@),
{
    let q: Option<pallas::Point> = pallas::Point::from_bytes(&p.bytes).into();
    let c = q.and_then(
        |pt| Option::<pasta_curves::arithmetic::Coordinates<pallas::Affine>>::from(
            pt.to_affine().coordinates(),
        ),
    ).map(|xy| xy.y().to_repr()).unwrap_or([0u8; 32]);
    FieldElement {
        l0: u64::from_le_bytes(c[0..8].try_into().unwrap()),
        l1: u64::from_le_bytes(c[8..16].try_into().unwrap()),
        l2: u64::from_le_bytes(c[16..24].try_into().unwrap()),
        l3: u64::from_le_bytes(c[24..32].try_into().unwrap()),
    }
}

/// Relies on `rand::random`: a fresh machine word. Nothing is promised of the
/// value.
#[verifier::external_body]
pub fn random_u64() -> u64 {
    rand::random::<u64>()
}

/// A field element built from four fresh machine words; nothing is promised
/// of the value.
pub fn random_field_element() -> FieldElement {
    FieldElement { l0: random_u64(), l1: random_u64(), l2: random_u64(), l3: random_u64() }
}

/// A scalar built from four fresh machine words; nothing is promised of the
/// value.
pub fn random_scalar() -> CurveScalar {
    CurveScalar { l0: random_u64(), l1: random_u64(), l2: random_u64(), l3: random_u64() }
}

} // verus!
