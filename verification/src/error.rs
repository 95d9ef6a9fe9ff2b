//! The error taxonomy of the protocol core.

use vstd::prelude::*;

verus! {

/// Everything that can go wrong while building or executing a transaction.
///
/// Construction-time failures (`WitnessError`, `CircuitCompilationError`)
/// are raised before any proof is attempted; verification-time failures are
/// terminal for the whole transaction.
#[derive(Clone, Copy, Debug, PartialEq, Eq, Structural)]
pub enum TransactionError {
    /// A note or witness does not satisfy its own predicate.
    WitnessError,
    /// A portable circuit description could not be compiled.
    CircuitCompilationError,
    /// The proving engine failed to produce a proof.
    ProofGenerationError,
    /// A supplied proof does not verify against its claimed public instance.
    ProofVerificationError,
    /// The aggregate value-commitment sum is not the identity.
    UnbalancedTransactionError,
    /// A supplied anchor does not match the recomputed Merkle root.
    MerkleInconsistencyError,
    /// Two nullifiers within one transaction coincide.
    DuplicateNullifierError,
}

} // verus!
