//! Transactions: the aggregation of partial transactions, proven globally
//! value-balanced per application, free of duplicate nullifiers, and with
//! every predicate proof verified.

use vstd::prelude::*;

use vstd::pervasive::VecAdditionalExecFns;

use crate::error::TransactionError;
use crate::field::{FieldElement, Limbs};
use crate::note::Note;
use crate::shielded_ptx::ShieldedPartialTransaction;
use crate::NUM_NOTE;

verus! {

/// A bundle of shielded partial transactions.
#[derive(Clone, Debug)]
pub struct ShieldedPartialTxBundle {
    /// The constituent partial transactions.
    pub partial_txs: Vec<ShieldedPartialTransaction>,
}

impl ShieldedPartialTxBundle {
    /// Wraps a list of partial transactions.
    pub fn new(partial_txs: Vec<ShieldedPartialTransaction>) -> (r: ShieldedPartialTxBundle)
        ensures
            r.partial_txs == partial_txs,
    {
        ShieldedPartialTxBundle { partial_txs }
    }
}

/// One transparent value move: application descriptor and amount, for the
/// spent and the created side.
#[derive(Clone, Copy, Debug)]
pub struct TransparentPartialTransaction {
    /// The application of the moved value.
    pub app_descriptor: FieldElement,
    /// The value consumed.
    pub input_value: u64,
    /// The value created.
    pub output_value: u64,
}

/// A bundle of transparent partial transactions.
#[derive(Clone, Debug)]
pub struct TransparentPartialTxBundle {
    /// The constituent transparent moves.
    pub partial_txs: Vec<TransparentPartialTransaction>,
}

impl TransparentPartialTxBundle {
    /// Wraps a list of transparent moves.
    pub fn new(partial_txs: Vec<TransparentPartialTransaction>) -> (r: TransparentPartialTxBundle)
        ensures
            r.partial_txs == partial_txs,
    {
        TransparentPartialTxBundle { partial_txs }
    }
}

impl Default for TransparentPartialTxBundle {
    /// The empty transparent bundle.
    fn default() -> (r: TransparentPartialTxBundle)
        ensures
            r.partial_txs@.len() == 0,
    {
        TransparentPartialTxBundle { partial_txs: Vec::new() }
    }
}

/// What one note contributes to an application's net sum: its value if it
/// belongs to that application, nothing otherwise.
pub open spec fn spec_note_delta(app: Limbs, n: Note) -> int {
    if n.app_descriptor@ == app {
        n.value as int
    } else {
        0
    }
}

/// What one shielded partial transaction contributes to an application's
/// net sum: spent values count positively, created values negatively.
pub open spec fn spec_ptx_delta(ptx: &ShieldedPartialTransaction, app: Limbs) -> int {
    spec_note_delta(app, ptx.input_notes@[0]) + spec_note_delta(app, ptx.input_notes@[1])
        - spec_note_delta(app, ptx.output_notes@[0]) - spec_note_delta(app, ptx.output_notes@[1])
}

/// The net sum of an application over a suffix of shielded partial
/// transactions.
pub open spec fn spec_shielded_delta(s: Seq<ShieldedPartialTransaction>, app: Limbs, i: int) -> int
    decreases s.len() - i,
{
    if i < 0 || i >= s.len() {
        0
    } else {
        spec_ptx_delta(&s[i], app) + spec_shielded_delta(s, app, i + 1)
    }
}

/// What one transparent move contributes to an application's net sum.
pub open spec fn spec_transparent_ptx_delta(p: &TransparentPartialTransaction, app: Limbs) -> int {
    if p.app_descriptor@ == app {
        p.input_value - p.output_value
    } else {
        0
    }
}

/// The net sum of an application over a suffix of transparent moves.
pub open spec fn spec_transparent_delta(
    s: Seq<TransparentPartialTransaction>,
    app: Limbs,
    i: int,
) -> int
    decreases s.len() - i,
{
    if i < 0 || i >= s.len() {
        0
    } else {
        spec_transparent_ptx_delta(&s[i], app) + spec_transparent_delta(s, app, i + 1)
    }
}

/// A transaction: shielded and transparent bundles, executed as a whole.
#[derive(Clone, Debug)]
pub struct Transaction {
    /// The shielded half.
    pub shielded_bundle: ShieldedPartialTxBundle,
    /// The transparent half.
    pub transparent_bundle: TransparentPartialTxBundle,
}

impl Transaction {
    /// The net sum of one application over the whole transaction.
    pub open spec fn spec_delta(&self, app: Limbs) -> int {
        spec_shielded_delta(self.shielded_bundle.partial_txs@, app, 0) + spec_transparent_delta(
            self.transparent_bundle.partial_txs@,
            app,
            0,
        )
    }

    /// Global value conservation: every application's net sum is zero, so
    /// the aggregate value commitment is a commitment to zero.
    pub open spec fn spec_balanced(&self) -> bool {
        forall|app: Limbs| self.spec_delta(app) == 0
    }

    /// Whether every constituent predicate proof is internally consistent.
    pub open spec fn spec_proofs_valid(&self) -> bool {
        forall|i: int|
            0 <= i < self.shielded_bundle.partial_txs@.len() ==> (
            #[trigger] self.shielded_bundle.partial_txs@[i]).spec_proofs_valid()
    }

    /// The nullifier published by slot `j` of partial transaction `i`.
    pub open spec fn spec_nullifier_at(&self, i: int, j: int) -> Limbs {
        self.shielded_bundle.partial_txs@[i].actions@[j].nf@
    }

    /// Whether two distinct slots publish the same nullifier.
    pub open spec fn spec_has_duplicate_nullifier(&self) -> bool {
        exists|i1: int, j1: int, i2: int, j2: int|
            {
                &&& 0 <= i1 < self.shielded_bundle.partial_txs@.len()
                &&& 0 <= j1 < NUM_NOTE
                &&& 0 <= i2 < self.shielded_bundle.partial_txs@.len()
                &&& 0 <= j2 < NUM_NOTE
                &&& (i1, j1) != (i2, j2)
                &&& self.spec_nullifier_at(i1, j1) == self.spec_nullifier_at(i2, j2)
            }
    }

    /// Why executing the transaction fails, if it does: an inconsistent
    /// proof is surfaced first, then a duplicate nullifier, then a nonzero
    /// aggregate sum. Partial acceptance is never possible: the first
    /// failure rejects the whole transaction.
    pub open spec fn spec_execute_error(&self) -> Option<TransactionError> {
        if !self.spec_proofs_valid() {
            Some(TransactionError::ProofVerificationError)
        } else if self.spec_has_duplicate_nullifier() {
            Some(TransactionError::DuplicateNullifierError)
        } else if !self.spec_balanced() {
            Some(TransactionError::UnbalancedTransactionError)
        } else {
            None
        }
    }

    /// Aggregates already-built bundles into a transaction.
    pub fn build(
        shielded_bundle: ShieldedPartialTxBundle,
        transparent_bundle: TransparentPartialTxBundle,
    ) -> (r: Transaction)
        ensures
            r.shielded_bundle == shielded_bundle,
            r.transparent_bundle == transparent_bundle,
    {
        Transaction { shielded_bundle, transparent_bundle }
    }

    /// Executes the transaction: verifies every predicate proof, rejects
    /// duplicate nullifiers, and checks that every application's net sum
    /// is zero, failing exactly as `spec_execute_error` says. The whole
    /// transaction stands or falls together.
    pub fn execute(&self) -> (r: Result<(), TransactionError>)
        requires
            self.shielded_bundle.partial_txs@.len() <= 0x0100_0000,
            self.transparent_bundle.partial_txs@.len() <= 0x0100_0000,
        ensures
            r is Ok <==> self.spec_execute_error() is None,
            r matches Err(e) ==> Some(e) == self.spec_execute_error(),
    {
        let ptxs = &self.shielded_bundle.partial_txs;
        // Every predicate proof must verify against its claimed key and
        // instance.
        let mut i: usize = 0;
        while i < ptxs.len()
            invariant
                ptxs == &self.shielded_bundle.partial_txs,
                i <= ptxs@.len(),
                forall|k: int| 0 <= k < i ==> (#[trigger] ptxs@[k]).spec_proofs_valid(),
            decreases ptxs@.len() - i,
        {
            if ptxs[i].input_proofs.len() != NUM_NOTE || ptxs[i].output_proofs.len() != NUM_NOTE {
                proof {
                    assert(!ptxs@[i as int].spec_proofs_valid());
                }
                return Err(TransactionError::ProofVerificationError);
            }
            if !ptxs[i].verify_proofs() {
                return Err(TransactionError::ProofVerificationError);
            }
            i += 1;
        }
        proof {
            assert(self.spec_proofs_valid());
        }
        // No two slots may publish the same nullifier.
        let mut nfs: Vec<FieldElement> = Vec::new();
        let mut i2: usize = 0;
        while i2 < ptxs.len()
            invariant
                ptxs == &self.shielded_bundle.partial_txs,
                i2 <= ptxs@.len(),
                nfs@.len() == 2 * i2,
                forall|x: int|
                    0 <= x < nfs@.len() ==> (#[trigger] nfs@[x])@ == self.spec_nullifier_at(
                        x / 2,
                        x % 2,
                    ),
            decreases ptxs@.len() - i2,
        {
            let ghost pre = nfs@;
            let a0 = ptxs[i2].actions[0];
            let a1 = ptxs[i2].actions[1];
            let v0 = a0.nf.inner();
            let v1 = a1.nf.inner();
            nfs.push(v0);
            nfs.push(v1);
            proof {
                assert forall|x: int|
                    0 <= x < nfs@.len() implies (#[trigger] nfs@[x])@ == self.spec_nullifier_at(
                    x / 2,
                    x % 2,
                ) by {
                    if x < pre.len() {
                        assert(nfs@[x] == pre[x]);
                    } else if x == 2 * i2 {
                        assert(nfs@[x] == v0);
                        assert(x / 2 == i2 as int && x % 2 == 0);
                    } else {
                        assert(x == 2 * i2 + 1);
                        assert(nfs@[x] == v1);
                        assert(x / 2 == i2 as int && x % 2 == 1);
                    }
                }
            }
            i2 += 1;
        }
        let mut a: usize = 0;
        while a < nfs.len()
            invariant
                self.spec_proofs_valid(),
                ptxs == &self.shielded_bundle.partial_txs,
                nfs@.len() == 2 * ptxs@.len(),
                ptxs@.len() <= 0x0100_0000,
                forall|x: int|
                    0 <= x < nfs@.len() ==> (#[trigger] nfs@[x])@ == self.spec_nullifier_at(
                        x / 2,
                        x % 2,
                    ),
                a <= nfs@.len(),
                forall|x: int, y: int| 0 <= x < y < nfs@.len() && x < a ==> nfs@[x] != nfs@[y],
            decreases nfs@.len() - a,
        {
            let mut b: usize = a + 1;
            while b < nfs.len()
                invariant
                    self.spec_proofs_valid(),
                    ptxs == &self.shielded_bundle.partial_txs,
                    nfs@.len() == 2 * ptxs@.len(),
                    ptxs@.len() <= 0x0100_0000,
                    forall|x: int|
                        0 <= x < nfs@.len() ==> (#[trigger] nfs@[x])@ == self.spec_nullifier_at(
                            x / 2,
                            x % 2,
                        ),
                    a < b,
                    a < nfs@.len(),
                    b <= nfs@.len(),
                    forall|y: int| a < y < b ==> nfs@[y] != nfs@[a as int],
                decreases nfs@.len() - b,
            {
                if nfs[a] == nfs[b] {
                    proof {
                        let i1 = a as int / 2;
                        let j1 = a as int % 2;
                        let i0 = b as int / 2;
                        let j0 = b as int % 2;
                        assert(0 <= i1 < ptxs@.len());
                        assert(0 <= i0 < ptxs@.len());
                        assert(nfs@[a as int]@ == self.spec_nullifier_at(i1, j1));
                        assert(nfs@[b as int]@ == self.spec_nullifier_at(i0, j0));
                        assert((i1, j1) != (i0, j0)) by {
                            if i1 == i0 && j1 == j0 {
                                assert(a as int == 2 * i1 + j1);
                                assert(b as int == 2 * i0 + j0);
                            }
                        }
                        assert(self.spec_has_duplicate_nullifier());
                    }
                    return Err(TransactionError::DuplicateNullifierError);
                }
                b += 1;
            }
            a += 1;
        }
        proof {
            assert(!self.spec_has_duplicate_nullifier()) by {
                if self.spec_has_duplicate_nullifier() {
                    let (i1, j1, i0, j0) = choose|i1: int, j1: int, i0: int, j0: int|
                        {
                            &&& 0 <= i1 < self.shielded_bundle.partial_txs@.len()
                            &&& 0 <= j1 < NUM_NOTE
                            &&& 0 <= i0 < self.shielded_bundle.partial_txs@.len()
                            &&& 0 <= j0 < NUM_NOTE
                            &&& (i1, j1) != (i0, j0)
                            &&& self.spec_nullifier_at(i1, j1) == self.spec_nullifier_at(i0, j0)
                        };
                    let k1 = 2 * i1 + j1;
                    let k2 = 2 * i0 + j0;
                    assert(k1 != k2) by {
                        if k1 == k2 {
                            assert(j1 == k1 % 2);
                            assert(j0 == k2 % 2);
                        }
                    }
                    assert(k1 / 2 == i1 && k1 % 2 == j1);
                    assert(k2 / 2 == i0 && k2 % 2 == j0);
                    assert(nfs@[k1]@ == self.spec_nullifier_at(i1, j1));
                    assert(nfs@[k2]@ == self.spec_nullifier_at(i0, j0));
                    if k1 < k2 {
                        assert(nfs@[k1] != nfs@[k2]);
                    } else {
                        assert(nfs@[k2] != nfs@[k1]);
                    }
                }
            }
        }
        // Every application's net sum must be zero.
        let mut table: Vec<(FieldElement, i128)> = Vec::new();
        let ghost sseq = self.shielded_bundle.partial_txs@;
        let ghost tseq = self.transparent_bundle.partial_txs@;
        let mut i3: usize = 0;
        while i3 < ptxs.len()
            invariant
                self.spec_proofs_valid(),
                !self.spec_has_duplicate_nullifier(),
                ptxs == &self.shielded_bundle.partial_txs,
                sseq == self.shielded_bundle.partial_txs@,
                tseq == self.transparent_bundle.partial_txs@,
                sseq.len() <= 0x0100_0000,
                tseq.len() <= 0x0100_0000,
                i3 <= sseq.len(),
                spec_unique_keys(table@),
                forall|j: int|
                    0 <= j < table@.len() ==> -((4 * i3) * 0xFFFF_FFFF_FFFF_FFFFint) <= (
                    #[trigger] table@[j]).1 <= (4 * i3) * 0xFFFF_FFFF_FFFF_FFFFint,
                forall|x: Limbs|
                    #![trigger spec_shielded_delta(sseq, x, 0)]
                    spec_table_delta(table@, x) == spec_shielded_delta(sseq, x, 0)
                        - spec_shielded_delta(sseq, x, i3 as int),
            decreases sseq.len() - i3,
        {
            let ghost pre = table@;
            let n_in0 = ptxs[i3].input_notes[0];
            let n_in1 = ptxs[i3].input_notes[1];
            let n_out0 = ptxs[i3].output_notes[0];
            let n_out1 = ptxs[i3].output_notes[1];
            let ghost m: int = 0xFFFF_FFFF_FFFF_FFFFint;
            add_delta(&mut table, &n_in0.app_descriptor, n_in0.value as i128, Ghost((4 * i3) * m));
            add_delta(
                &mut table,
                &n_in1.app_descriptor,
                n_in1.value as i128,
                Ghost((4 * i3) * m + m),
            );
            add_delta(
                &mut table,
                &n_out0.app_descriptor,
                -(n_out0.value as i128),
                Ghost((4 * i3) * m + 2 * m),
            );
            add_delta(
                &mut table,
                &n_out1.app_descriptor,
                -(n_out1.value as i128),
                Ghost((4 * i3) * m + 3 * m),
            );
            proof {
                assert forall|x: Limbs|
                    #![trigger spec_shielded_delta(sseq, x, 0)]
                    spec_table_delta(table@, x) == spec_shielded_delta(sseq, x, 0)
                        - spec_shielded_delta(sseq, x, i3 + 1) by {
                    assert(spec_shielded_delta(sseq, x, i3 as int) == spec_ptx_delta(
                        &sseq[i3 as int],
                        x,
                    ) + spec_shielded_delta(sseq, x, i3 + 1));
                    assert(spec_table_delta(pre, x) == spec_shielded_delta(sseq, x, 0)
                        - spec_shielded_delta(sseq, x, i3 as int));
                }
            }
            i3 += 1;
        }
        let tps = &self.transparent_bundle.partial_txs;
        let mut i4: usize = 0;
        while i4 < tps.len()
            invariant
                self.spec_proofs_valid(),
                !self.spec_has_duplicate_nullifier(),
                tps == &self.transparent_bundle.partial_txs,
                sseq == self.shielded_bundle.partial_txs@,
                tseq == self.transparent_bundle.partial_txs@,
                sseq.len() <= 0x0100_0000,
                tseq.len() <= 0x0100_0000,
                i4 <= tseq.len(),
                spec_unique_keys(table@),
                forall|j: int|
                    0 <= j < table@.len() ==> -((4 * sseq.len() + 2 * i4)
                        * 0xFFFF_FFFF_FFFF_FFFFint) <= (#[trigger] table@[j]).1 <= (4 * sseq.len()
                        + 2 * i4) * 0xFFFF_FFFF_FFFF_FFFFint,
                forall|x: Limbs|
                    #![trigger spec_transparent_delta(tseq, x, 0)]
                    spec_table_delta(table@, x) == spec_shielded_delta(sseq, x, 0)
                        + spec_transparent_delta(tseq, x, 0) - spec_transparent_delta(
                        tseq,
                        x,
                        i4 as int,
                    ),
            decreases tseq.len() - i4,
        {
            let ghost pre = table@;
            let p = tps[i4];
            let ghost m: int = 0xFFFF_FFFF_FFFF_FFFFint;
            add_delta(
                &mut table,
                &p.app_descriptor,
                p.input_value as i128,
                Ghost((4 * sseq.len() + 2 * i4) * m),
            );
            add_delta(
                &mut table,
                &p.app_descriptor,
                -(p.output_value as i128),
                Ghost((4 * sseq.len() + 2 * i4) * m + m),
            );
            proof {
                assert forall|x: Limbs|
                    #![trigger spec_transparent_delta(tseq, x, 0)]
                    spec_table_delta(table@, x) == spec_shielded_delta(sseq, x, 0)
                        + spec_transparent_delta(tseq, x, 0) - spec_transparent_delta(
                        tseq,
                        x,
                        i4 + 1,
                    ) by {
                    assert(spec_transparent_delta(tseq, x, i4 as int) == spec_transparent_ptx_delta(
                        &tseq[i4 as int],
                        x,
                    ) + spec_transparent_delta(tseq, x, i4 + 1));
                }
            }
            i4 += 1;
        }
        proof {
            assert forall|x: Limbs| spec_table_delta(table@, x) == self.spec_delta(x) by {
                assert(spec_shielded_delta(sseq, x, sseq.len() as int) == 0);
                assert(spec_transparent_delta(tseq, x, tseq.len() as int) == 0);
            }
        }
        let mut k: usize = 0;
        while k < table.len()
            invariant
                self.spec_proofs_valid(),
                !self.spec_has_duplicate_nullifier(),
                spec_unique_keys(table@),
                forall|x: Limbs| spec_table_delta(table@, x) == self.spec_delta(x),
                k <= table@.len(),
                forall|j: int| 0 <= j < k ==> (#[trigger] table@[j]).1 == 0,
            decreases table@.len() - k,
        {
            if table[k].1 != 0 {
                proof {
                    lemma_table_unique_entry(table@, k as int);
                    assert(self.spec_delta(table@[k as int].0@) != 0);
                    assert(!self.spec_balanced());
                }
                return Err(TransactionError::UnbalancedTransactionError);
            }
            k += 1;
        }
        proof {
            assert forall|x: Limbs| self.spec_delta(x) == 0 by {
                lemma_table_all_zero(table@, x);
            }
        }
        Ok(())
    }
}

/// A note of value zero contributes nothing to any application's net sum;
/// a partial transaction whose free slots hold zero-value padding notes
/// therefore balances exactly as one holding genuine zero-value notes.
pub proof fn lemma_padding_slot_neutral(
    ptx1: &ShieldedPartialTransaction,
    ptx2: &ShieldedPartialTransaction,
)
    requires
        ptx1.input_notes@[0] == ptx2.input_notes@[0],
        ptx1.output_notes@[0] == ptx2.output_notes@[0],
        ptx1.input_notes@[1].value == 0,
        ptx2.input_notes@[1].value == 0,
        ptx1.output_notes@[1].value == 0,
        ptx2.output_notes@[1].value == 0,
    ensures
        forall|app: Limbs| spec_ptx_delta(ptx1, app) == spec_ptx_delta(ptx2, app),
{
}

/// Sums over bundles that differ in a single partial transaction differ
/// exactly by that partial transaction's own difference.
proof fn lemma_shielded_delta_pointwise(
    s1: Seq<ShieldedPartialTransaction>,
    s2: Seq<ShieldedPartialTransaction>,
    app: Limbs,
    i: int,
    lo: int,
)
    requires
        s1.len() == s2.len(),
        0 <= i < s1.len(),
        forall|k: int| 0 <= k < s1.len() && k != i ==> s1[k] == s2[k],
        0 <= lo <= s1.len(),
    ensures
        spec_shielded_delta(s2, app, lo) - spec_shielded_delta(s1, app, lo) == if lo <= i {
            spec_ptx_delta(&s2[i], app) - spec_ptx_delta(&s1[i], app)
        } else {
            0
        },
    decreases s1.len() - lo,
{
    if lo < s1.len() {
        lemma_shielded_delta_pointwise(s1, s2, app, i, lo + 1);
    }
}

/// Perturbing one output note's value in a balanced transaction breaks
/// the balance: the perturbed note's own application no longer sums to
/// zero, so execution must reject the transaction as unbalanced.
pub proof fn lemma_output_value_perturbation(tx1: &Transaction, tx2: &Transaction, i: int)
    requires
        tx1.spec_balanced(),
        0 <= i < tx1.shielded_bundle.partial_txs@.len(),
        tx2.shielded_bundle.partial_txs@.len() == tx1.shielded_bundle.partial_txs@.len(),
        tx2.transparent_bundle.partial_txs@ == tx1.transparent_bundle.partial_txs@,
        forall|k: int|
            0 <= k < tx1.shielded_bundle.partial_txs@.len() && k != i
                ==> tx1.shielded_bundle.partial_txs@[k] == tx2.shielded_bundle.partial_txs@[k],
        tx2.shielded_bundle.partial_txs@[i].input_notes
            == tx1.shielded_bundle.partial_txs@[i].input_notes,
        tx2.shielded_bundle.partial_txs@[i].output_notes@[1]
            == tx1.shielded_bundle.partial_txs@[i].output_notes@[1],
        tx2.shielded_bundle.partial_txs@[i].output_notes@[0] == (Note {
            value: tx2.shielded_bundle.partial_txs@[i].output_notes@[0].value,
            ..tx1.shielded_bundle.partial_txs@[i].output_notes@[0]
        }),
        tx2.shielded_bundle.partial_txs@[i].output_notes@[0].value
            != tx1.shielded_bundle.partial_txs@[i].output_notes@[0].value,
    ensures
        !tx2.spec_balanced(),
{
    let s1 = tx1.shielded_bundle.partial_txs@;
    let s2 = tx2.shielded_bundle.partial_txs@;
    let n1 = s1[i].output_notes@[0];
    let n2 = s2[i].output_notes@[0];
    let app = n1.app_descriptor@;
    lemma_shielded_delta_pointwise(s1, s2, app, i, 0);
    assert(spec_ptx_delta(&s2[i], app) - spec_ptx_delta(&s1[i], app) == n1.value - n2.value);
    assert(tx2.spec_delta(app) == tx1.spec_delta(app) + n1.value - n2.value);
    assert(tx1.spec_delta(app) == 0);
    assert(tx2.spec_delta(app) != 0);
}

/// The net sum a delta table records for one application: the sum of the
/// values of every entry bearing that key.
pub open spec fn spec_table_delta(s: Seq<(FieldElement, i128)>, app: Limbs) -> int
    decreases s.len(),
{
    if s.len() == 0 {
        0
    } else {
        (if s[0].0@ == app {
            s[0].1 as int
        } else {
            0
        }) + spec_table_delta(s.drop_first(), app)
    }
}

/// Whether every key occurs at most once in a delta table.
pub open spec fn spec_unique_keys(s: Seq<(FieldElement, i128)>) -> bool {
    forall|i: int, j: int| 0 <= i < j < s.len() ==> (#[trigger] s[i]).0 != (#[trigger] s[j]).0
}

/// Appending an entry adds its contribution to every application's sum.
proof fn lemma_table_push(s: Seq<(FieldElement, i128)>, e: (FieldElement, i128), app: Limbs)
    ensures
        spec_table_delta(s.push(e), app) == spec_table_delta(s, app) + (if e.0@ == app {
            e.1 as int
        } else {
            0
        }),
    decreases s.len(),
{
    if s.len() == 0 {
        assert(s.push(e)[0] == e);
        assert(s.push(e).drop_first() =~= Seq::<(FieldElement, i128)>::empty());
        assert(spec_table_delta(Seq::<(FieldElement, i128)>::empty(), app) == 0);
        assert(spec_table_delta(s.push(e), app) == (if e.0@ == app {
            e.1 as int
        } else {
            0
        }) + spec_table_delta(s.push(e).drop_first(), app));
    } else {
        assert(s.push(e)[0] == s[0]);
        assert(s.push(e).drop_first() =~= s.drop_first().push(e));
        lemma_table_push(s.drop_first(), e, app);
        assert(spec_table_delta(s.push(e), app) == (if s[0].0@ == app {
            s[0].1 as int
        } else {
            0
        }) + spec_table_delta(s.drop_first().push(e), app));
        assert(spec_table_delta(s, app) == (if s[0].0@ == app {
            s[0].1 as int
        } else {
            0
        }) + spec_table_delta(s.drop_first(), app));
    }
}

/// Changing one entry's value changes only that key's sum, by the
/// difference.
proof fn lemma_table_update(s: Seq<(FieldElement, i128)>, i: int, v: i128, app: Limbs)
    requires
        0 <= i < s.len(),
    ensures
        spec_table_delta(s.update(i, (s[i].0, v)), app) == spec_table_delta(s, app) + (if s[i].0@
            == app {
            v - s[i].1
        } else {
            0
        }),
    decreases s.len(),
{
    let t = s.update(i, (s[i].0, v));
    if i == 0 {
        assert(t[0] == (s[0].0, v));
        assert(t.drop_first() =~= s.drop_first());
    } else {
        assert(t[0] == s[0]);
        assert(t.drop_first() =~= s.drop_first().update(i - 1, (s[i].0, v)));
        assert(s.drop_first()[i - 1] == s[i]);
        lemma_table_update(s.drop_first(), i - 1, v, app);
    }
}

/// A key absent from the table has sum zero; more generally, if every
/// entry's value is zero, every application's sum is zero.
proof fn lemma_table_all_zero(s: Seq<(FieldElement, i128)>, app: Limbs)
    requires
        forall|i: int| 0 <= i < s.len() ==> (#[trigger] s[i]).1 == 0,
    ensures
        spec_table_delta(s, app) == 0,
    decreases s.len(),
{
    if s.len() > 0 {
        assert(s.drop_first() =~= s.subrange(1, s.len() as int));
        lemma_table_all_zero(s.drop_first(), app);
    }
}

/// With unique keys, an entry's value is exactly its key's sum.
proof fn lemma_table_unique_entry(s: Seq<(FieldElement, i128)>, i: int)
    requires
        spec_unique_keys(s),
        0 <= i < s.len(),
    ensures
        spec_table_delta(s, s[i].0@) == s[i].1 as int,
    decreases s.len(),
{
    let app = s[i].0@;
    if i == 0 {
        // Every later entry has a different key, so the tail contributes
        // nothing to this key's sum.
        assert forall|k: int|
            0 <= k < s.drop_first().len() implies (#[trigger] s.drop_first()[k]).0@ != app by {
            assert(s.drop_first()[k] == s[k + 1]);
            if s[k + 1].0@ == app {
                assert(s[k + 1].0 == s[0].0);
            }
        }
        lemma_table_absent(s.drop_first(), app);
    } else {
        assert(s.drop_first()[i - 1] == s[i]);
        assert(spec_unique_keys(s.drop_first())) by {
            assert forall|a: int, b: int|
                0 <= a < b < s.drop_first().len() implies (#[trigger] s.drop_first()[a]).0 != (
            #[trigger] s.drop_first()[b]).0 by {
                assert(s.drop_first()[a] == s[a + 1]);
                assert(s.drop_first()[b] == s[b + 1]);
            }
        }
        lemma_table_unique_entry(s.drop_first(), i - 1);
        assert(s[0].0 != s[i].0);
        assert(s[0].0@ != app) by {
            if s[0].0@ == app {
                assert(s[0].0 == s[i].0);
            }
        }
    }
}

/// A key different from every entry's key has sum zero.
proof fn lemma_table_absent(s: Seq<(FieldElement, i128)>, app: Limbs)
    requires
        forall|i: int| 0 <= i < s.len() ==> (#[trigger] s[i]).0@ != app,
    ensures
        spec_table_delta(s, app) == 0,
    decreases s.len(),
{
    if s.len() > 0 {
        assert(s.drop_first() =~= s.subrange(1, s.len() as int));
        lemma_table_absent(s.drop_first(), app);
    }
}

/// Adds a signed contribution for one application into the delta table,
/// keeping keys unique and every entry bounded.
fn add_delta(
    table: &mut Vec<(FieldElement, i128)>,
    app: &FieldElement,
    d: i128,
    Ghost(bound): Ghost<int>,
) -> (done: bool)
    requires
        spec_unique_keys(old(table)@),
        forall|i: int|
            0 <= i < old(table)@.len() ==> -bound <= (#[trigger] old(table)@[i]).1 <= bound,
        -0xFFFF_FFFF_FFFF_FFFF <= d <= 0xFFFF_FFFF_FFFF_FFFF,
        0 <= bound,
        bound + 0xFFFF_FFFF_FFFF_FFFF < i128::MAX,
    ensures
        done,
        spec_unique_keys(final(table)@),
        forall|i: int|
            0 <= i < final(table)@.len() ==> -(bound + 0xFFFF_FFFF_FFFF_FFFF) <= (
            #[trigger] final(table)@[i]).1 <= bound + 0xFFFF_FFFF_FFFF_FFFF,
        forall|x: Limbs|
            spec_table_delta(final(table)@, x) == spec_table_delta(old(table)@, x) + (if x == app@ {
                d as int
            } else {
                0
            }),
{
    let mut i: usize = 0;
    while i < table.len()
        invariant
            table@ == old(table)@,
            spec_unique_keys(old(table)@),
            forall|j: int|
                0 <= j < old(table)@.len() ==> -bound <= (#[trigger] old(table)@[j]).1 <= bound,
            -0xFFFF_FFFF_FFFF_FFFF <= d <= 0xFFFF_FFFF_FFFF_FFFF,
            0 <= bound,
            bound + 0xFFFF_FFFF_FFFF_FFFF < i128::MAX,
            i <= table@.len(),
            forall|j: int| 0 <= j < i ==> (#[trigger] table@[j]).0 != *app,
        decreases table@.len() - i,
    {
        if table[i].0 == *app {
            let v = table[i].1;
            let key = table[i].0;
            let nv = v + d;
            table.set(i, (key, nv));
            proof {
                assert forall|x: Limbs|
                    spec_table_delta(table@, x) == spec_table_delta(old(table)@, x) + (if x
                        == app@ {
                        d as int
                    } else {
                        0
                    }) by {
                    lemma_table_update(old(table)@, i as int, nv, x);
                    if x == app@ && old(table)@[i as int].0@ != x {
                        assert(old(table)@[i as int].0 == *app);
                    }
                }
                assert forall|a: int, b: int|
                    0 <= a < b < table@.len() implies (#[trigger] table@[a]).0 != (
                #[trigger] table@[b]).0 by {
                    assert(table@[a].0 == old(table)@[a].0);
                    assert(table@[b].0 == old(table)@[b].0);
                }
            }
            return true;
        }
        i += 1;
    }
    let ghost before = table@;
    table.push((*app, d));
    proof {
        assert forall|x: Limbs|
            spec_table_delta(table@, x) == spec_table_delta(before, x) + (if x == app@ {
                d as int
            } else {
                0
            }) by {
            lemma_table_push(before, (*app, d), x);
        }
        assert forall|a: int, b: int|
            0 <= a < b < table@.len() implies (#[trigger] table@[a]).0 != (
        #[trigger] table@[b]).0 by {
            if b == table@.len() - 1 {
                assert(table@[a].0 == before[a].0);
            } else {
                assert(table@[a].0 == before[a].0);
                assert(table@[b].0 == before[b].0);
            }
        }
    }
    true
}

} // verus!
