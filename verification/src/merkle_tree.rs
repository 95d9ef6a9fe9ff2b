//! The fixed-depth Merkle accumulator of note commitments: authentication
//! paths, anchors, and the client-side path and root computations.

use vstd::prelude::*;

use vstd::arithmetic::power2::{lemma2_to64, lemma_pow2_unfold, pow2};

use crate::field::{poseidon2, random_field_element, random_u64, FieldElement, Limbs};
use crate::field::poseidon2_of;
use crate::COMMITMENT_TREE_DEPTH;

verus! {

/// The hash combining two sibling nodes into their parent.
pub open spec fn node_hash(l: Limbs, r: Limbs) -> Limbs {
    poseidon2_of(l, r)
}

/// The node standing in for a missing right sibling of a partially filled
/// level.
pub open spec fn empty_node() -> Limbs {
    (0u64, 0u64, 0u64, 0u64)
}

/// The limb views of a sequence of field elements.
pub open spec fn limbs_of(s: Seq<FieldElement>) -> Seq<Limbs> {
    s.map_values(|f: FieldElement| f@)
}

/// One step up the tree: the parent of the current node, whose sibling was
/// recorded together with the side the current node is on.
pub open spec fn combine(cur: Limbs, sib: Limbs, cur_is_right: bool) -> Limbs {
    if cur_is_right {
        node_hash(sib, cur)
    } else {
        node_hash(cur, sib)
    }
}

/// Folds an authentication path bottom-up, starting from entry `i`.
pub open spec fn spec_root_from(leaf: Limbs, path: Seq<(Limbs, bool)>, i: int) -> Limbs
    decreases path.len() - i,
{
    if i < 0 || i >= path.len() {
        leaf
    } else {
        spec_root_from(combine(leaf, path[i].0, path[i].1), path, i + 1)
    }
}

/// What the root recomputed from a leaf and its authentication path is.
pub open spec fn spec_root(leaf: Limbs, path: Seq<(Limbs, bool)>) -> Limbs {
    spec_root_from(leaf, path, 0)
}

/// The level above the given one: neighbouring pairs hashed together, a
/// missing right sibling replaced by the empty node.
pub open spec fn spec_parent_level(level: Seq<Limbs>) -> Seq<Limbs> {
    Seq::new(
        ((level.len() + 1) / 2) as nat,
        |i: int|
            node_hash(
                level[2 * i],
                if 2 * i + 1 < level.len() {
                    level[2 * i + 1]
                } else {
                    empty_node()
                },
            ),
    )
}

/// The root of a tree whose lowest level is `level`, `depth` levels below
/// the root.
pub open spec fn spec_level_root(level: Seq<Limbs>, depth: nat) -> Limbs
    decreases depth,
{
    if depth == 0 {
        if level.len() >= 1 {
            level[0]
        } else {
            empty_node()
        }
    } else {
        spec_level_root(spec_parent_level(level), (depth - 1) as nat)
    }
}

/// What the root of the fixed-depth tree over the given leaves is.
pub open spec fn spec_tree_root(leaves: Seq<Limbs>) -> Limbs {
    spec_level_root(leaves, COMMITMENT_TREE_DEPTH as nat)
}

/// Extending a path by one entry folds that entry on top of the previous
/// result.
proof fn lemma_root_from_push(leaf: Limbs, path: Seq<(Limbs, bool)>, e: (Limbs, bool), i: int)
    requires
        0 <= i <= path.len(),
    ensures
        spec_root_from(leaf, path.push(e), i) == combine(
            spec_root_from(leaf, path, i),
            e.0,
            e.1,
        ),
    decreases path.len() - i,
{
    if i == path.len() {
        assert(path.push(e)[i] == e);
        let x = combine(leaf, e.0, e.1);
        assert(spec_root_from(x, path.push(e), i + 1) == x);
    } else {
        assert(path.push(e)[i] == path[i]);
        lemma_root_from_push(combine(leaf, path[i].0, path[i].1), path, e, i + 1);
    }
}

/// A historical root of the commitment tree, usable for membership proofs.
#[derive(Clone, Copy, Debug, PartialEq, Eq, Structural, Hash)]
pub struct Anchor(pub FieldElement);

impl View for Anchor {
    type V = Limbs;

    open spec fn view(&self) -> Limbs {
        self.0@
    }
}

impl Anchor {
    /// The anchor's field element.
    pub fn inner(&self) -> (r: FieldElement)
        ensures
            r@ == self@,
    {
        self.0
    }

    /// An anchor from a given field element (used for the arbitrary anchors
    /// of notes whose membership is not checked).
    pub fn from_field(v: FieldElement) -> (r: Anchor)
        ensures
            r@ == v@,
    {
        Anchor(v)
    }
}

/// An authentication path: one (sibling, is-right-child) pair per tree
/// level, leaf level first.
#[derive(Debug)]
pub struct MerklePath {
    /// The recorded siblings, each with whether the node on the path is the
    /// right child at that level.
    pub auth_path: Vec<(FieldElement, bool)>,
}

impl View for MerklePath {
    type V = Seq<(Limbs, bool)>;

    open spec fn view(&self) -> Seq<(Limbs, bool)> {
        self.auth_path@.map_values(|p: (FieldElement, bool)| (p.0@, p.1))
    }
}

impl Clone for MerklePath {
    /// A copy with the very same entries.
    fn clone(&self) -> (r: MerklePath)
        ensures
            r.auth_path@ == self.auth_path@,
    {
        let mut auth_path: Vec<(FieldElement, bool)> = Vec::new();
        let mut i: usize = 0;
        while i < self.auth_path.len()
            invariant
                i <= self.auth_path@.len(),
                auth_path@ == self.auth_path@.take(i as int),
            decreases self.auth_path@.len() - i,
        {
            let e = self.auth_path[i];
            auth_path.push(e);
            proof {
                assert(auth_path@ =~= self.auth_path@.take(i + 1 as int));
            }
            i += 1;
        }
        proof {
            assert(auth_path@ =~= self.auth_path@);
        }
        MerklePath { auth_path }
    }
}

impl MerklePath {
    /// A path is well formed when it has exactly one entry per tree level.
    pub open spec fn well_formed(&self) -> bool {
        self.auth_path@.len() == COMMITMENT_TREE_DEPTH
    }

    /// Wraps an explicit list of path entries.
    pub fn from_path(auth_path: Vec<(FieldElement, bool)>) -> (r: MerklePath)
        ensures
            r.auth_path == auth_path,
    {
        MerklePath { auth_path }
    }

    /// A path of uniformly random siblings, for padding notes and notes
    /// whose membership is not checked.
    pub fn random() -> (r: MerklePath)
        ensures
            r.well_formed(),
    {
        let mut auth_path: Vec<(FieldElement, bool)> = Vec::new();
        let mut i: usize = 0;
        while i < COMMITMENT_TREE_DEPTH
            invariant
                i <= COMMITMENT_TREE_DEPTH,
                auth_path@.len() == i,
            decreases COMMITMENT_TREE_DEPTH - i,
        {
            auth_path.push((random_field_element(), random_u64() % 2 == 1));
            i += 1;
        }
        MerklePath { auth_path }
    }

    /// Recomputes the root by folding the path bottom-up from the leaf: a
    /// pure function of the path and the leaf.
    pub fn root(&self, leaf: &FieldElement) -> (r: Anchor)
        ensures
            r@ == spec_root(leaf@, self@),
    {
        let mut acc: FieldElement = *leaf;
        let mut i: usize = 0;
        while i < self.auth_path.len()
            invariant
                i <= self.auth_path@.len(),
                spec_root_from(leaf@, self@, 0) == spec_root_from(acc@, self@, i as int),
            decreases self.auth_path@.len() - i,
        {
            let (sib, is_right) = self.auth_path[i];
            proof {
                assert(self@[i as int] == (self.auth_path@[i as int].0@,
                    self.auth_path@[i as int].1));
            }
            acc = if is_right {
                poseidon2(&sib, &acc)
            } else {
                poseidon2(&acc, &sib)
            };
            i += 1;
        }
        Anchor(acc)
    }
}

/// Hashes one level of the tree into the level above it.
fn parent_level(cur: &Vec<FieldElement>) -> (r: Vec<FieldElement>)
    requires
        cur@.len() <= 0x4000_0000,
    ensures
        limbs_of(r@) == spec_parent_level(limbs_of(cur@)),
{
    let mut next: Vec<FieldElement> = Vec::new();
    let zero = FieldElement::zero();
    let mut j: usize = 0;
    while j < cur.len()
        invariant
            cur@.len() <= 0x4000_0000,
            j % 2 == 0,
            j <= cur@.len() + 1,
            next@.len() == (j + 1) / 2,
            forall|m: int|
                0 <= m < next@.len() ==> limbs_of(next@)[m] == spec_parent_level(limbs_of(cur@))[m],
            zero@ == empty_node(),
        decreases cur@.len() + 1 - j,
    {
        let sib = if j + 1 < cur.len() {
            cur[j + 1]
        } else {
            zero
        };
        let h = poseidon2(&cur[j], &sib);
        let ghost old_next = next@;
        next.push(h);
        proof {
            let level = limbs_of(cur@);
            let m = j as int / 2;
            assert(limbs_of(next@) =~= limbs_of(old_next).push(h@));
            assert(2 * m == j as int);
            assert(m < level.len()) by {
                assert((j as int) < level.len());
            }
            assert(spec_parent_level(level)[m] == node_hash(
                level[2 * m],
                if 2 * m + 1 < level.len() {
                    level[2 * m + 1]
                } else {
                    empty_node()
                },
            ));
            assert(level[j as int] == cur@[j as int]@);
            assert(limbs_of(next@)[m] == h@);
        }
        j += 2;
    }
    proof {
        assert(next@.len() == spec_parent_level(limbs_of(cur@)).len());
        assert(limbs_of(next@) =~= spec_parent_level(limbs_of(cur@)));
    }
    next
}

/// Builds the authentication path for the leaf at `index` over the given
/// leaves. The returned path recomputes, from that very leaf, the root of
/// the tree as it stands at the time of construction: `spec_root` of the
/// path and leaf equals `spec_tree_root` of the leaves.
pub fn build_path(leaves: &Vec<FieldElement>, index: usize) -> (r: MerklePath)
    requires
        index < leaves@.len(),
        leaves@.len() <= 0x4000_0000,
    ensures
        r.well_formed(),
        spec_root(leaves@[index as int]@, r@) == spec_tree_root(limbs_of(leaves@)),
{
    let mut cur: Vec<FieldElement> = Vec::new();
    let mut i: usize = 0;
    while i < leaves.len()
        invariant
            i <= leaves@.len(),
            cur@ == leaves@.take(i as int),
        decreases leaves@.len() - i,
    {
        let v = leaves[i];
        cur.push(v);
        proof {
            assert(cur@ =~= leaves@.take(i + 1 as int));
        }
        i += 1;
    }
    proof {
        assert(cur@ =~= leaves@);
        lemma2_to64();
    }
    let mut auth_path: Vec<(FieldElement, bool)> = Vec::new();
    proof {
        let empty_path = auth_path@.map_values(|p: (FieldElement, bool)| (p.0@, p.1));
        assert(empty_path.len() == 0);
        assert(spec_root_from(leaves@[index as int]@, empty_path, 0) == leaves@[index as int]@);
        assert(limbs_of(cur@)[index as int] == cur@[index as int]@);
    }
    let mut pos: usize = index;
    let mut lvl: usize = 0;
    while lvl < COMMITMENT_TREE_DEPTH
        invariant
            lvl <= COMMITMENT_TREE_DEPTH,
            auth_path@.len() == lvl,
            pos < cur@.len(),
            cur@.len() <= 0x4000_0000,
            cur@.len() <= pow2((COMMITMENT_TREE_DEPTH - lvl) as nat),
            spec_root_from(
                leaves@[index as int]@,
                auth_path@.map_values(|p: (FieldElement, bool)| (p.0@, p.1)),
                0,
            ) == limbs_of(cur@)[pos as int],
            spec_level_root(limbs_of(cur@), (COMMITMENT_TREE_DEPTH - lvl) as nat)
                == spec_tree_root(limbs_of(leaves@)),
        decreases COMMITMENT_TREE_DEPTH - lvl,
    {
        let is_right = pos % 2 == 1;
        let sib = if is_right {
            cur[pos - 1]
        } else {
            if pos + 1 < cur.len() {
                cur[pos + 1]
            } else {
                FieldElement::zero()
            }
        };
        let ghost old_path = auth_path@.map_values(|p: (FieldElement, bool)| (p.0@, p.1));
        let ghost old_cur = limbs_of(cur@);
        auth_path.push((sib, is_right));
        proof {
            let new_path = auth_path@.map_values(|p: (FieldElement, bool)| (p.0@, p.1));
            assert(new_path =~= old_path.push((sib@, is_right)));
            lemma_root_from_push(leaves@[index as int]@, old_path, (sib@, is_right), 0);
            // The combined node is exactly the parent-level entry above `pos`.
            let p = pos as int;
            let m = p / 2;
            assert(m < (old_cur.len() + 1) / 2);
            assert(spec_parent_level(old_cur)[m] == node_hash(
                old_cur[2 * m],
                if 2 * m + 1 < old_cur.len() {
                    old_cur[2 * m + 1]
                } else {
                    empty_node()
                },
            ));
            if is_right {
                assert(2 * m == p - 1);
                assert(old_cur[p - 1] == cur@[p - 1]@);
                assert(combine(old_cur[p], sib@, true) == node_hash(old_cur[p - 1], old_cur[p]));
            } else {
                assert(2 * m == p);
                if p + 1 < old_cur.len() {
                    assert(old_cur[p + 1] == cur@[p + 1]@);
                }
            }
            assert(spec_parent_level(old_cur)[m] == combine(old_cur[p], sib@, is_right));
            lemma_pow2_unfold((COMMITMENT_TREE_DEPTH - lvl) as nat);
        }
        let next = parent_level(&cur);
        proof {
            assert(limbs_of(next@).len() == next@.len());
            assert(limbs_of(cur@) == old_cur);
        }
        cur = next;
        pos = pos / 2;
        lvl += 1;
    }
    proof {
        lemma2_to64();
        assert(cur@.len() == 1);
        assert(pos == 0);
    }
    MerklePath { auth_path }
}

/// The root of the tree over the given leaves as it currently stands.
pub fn current_root(leaves: &Vec<FieldElement>) -> (r: Anchor)
    requires
        1 <= leaves@.len() <= 0x4000_0000,
    ensures
        r@ == spec_tree_root(limbs_of(leaves@)),
{
    let mut cur: Vec<FieldElement> = Vec::new();
    let mut i: usize = 0;
    while i < leaves.len()
        invariant
            i <= leaves@.len(),
            cur@ == leaves@.take(i as int),
        decreases leaves@.len() - i,
    {
        let v = leaves[i];
        cur.push(v);
        proof {
            assert(cur@ =~= leaves@.take(i + 1 as int));
        }
        i += 1;
    }
    proof {
        assert(cur@ =~= leaves@);
        lemma2_to64();
    }
    let mut lvl: usize = 0;
    while lvl < COMMITMENT_TREE_DEPTH
        invariant
            lvl <= COMMITMENT_TREE_DEPTH,
            1 <= cur@.len(),
            cur@.len() <= 0x4000_0000,
            cur@.len() <= pow2((COMMITMENT_TREE_DEPTH - lvl) as nat),
            spec_level_root(limbs_of(cur@), (COMMITMENT_TREE_DEPTH - lvl) as nat)
                == spec_tree_root(limbs_of(leaves@)),
        decreases COMMITMENT_TREE_DEPTH - lvl,
    {
        proof {
            lemma_pow2_unfold((COMMITMENT_TREE_DEPTH - lvl) as nat);
        }
        let next = parent_level(&cur);
        proof {
            assert(limbs_of(next@).len() == next@.len());
            assert(limbs_of(cur@).len() == cur@.len());
        }
        cur = next;
        lvl += 1;
    }
    proof {
        lemma2_to64();
        assert(cur@.len() == 1);
    }
    Anchor(cur[0])
}

} // verus!
