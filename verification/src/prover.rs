//! Driving the proving backend.
//!
//! Proving itself is outside work: the backend consumes the encoded
//! private input and reports back.  The decisions around that work live
//! here: building the program input for a request, and classifying the
//! backend's report into a receipt or a proof error.

use crate::codec::{encode_journal, spec_encode_journal};
use crate::receipt::{check_inner_proof_wf, inner_proof_wf, receipt_wf, InnerProof, Receipt};
use vstd::prelude::*;

verus! {

/// The proving mode a request asks for.
#[derive(Clone, Copy, Debug, PartialEq, Eq, Structural)]
pub enum ProofMode {
    /// A fast, non-succinct mode for local iteration; not accepted on chain.
    Development,
    /// The succinct mode required for on-chain acceptance.
    Succinct,
}

/// One proving invocation: the private input value and the backend options.
#[derive(Clone, Copy, Debug)]
pub struct ProofRequest {
    /// The private input the predicate is run on.
    pub input: u128,
    /// The proof system the backend must use.
    pub mode: ProofMode,
}

/// What the proving backend reported for one request.
#[derive(Clone, Debug)]
pub enum BackendOutcome {
    /// The predicate program ran to completion and the backend produced a
    /// proof: the committed journal bytes and the inner proof.
    Completed { journal: Vec<u8>, inner: InnerProof },
    /// The predicate program itself rejected the input.
    PredicateRejected,
    /// The prover infrastructure failed: context build failure or crash.
    Failed,
}

/// Terminal failures of [`generate`]; no partial receipt accompanies them.
#[derive(Clone, Copy, Debug, PartialEq, Eq, Structural)]
pub enum ProofError {
    /// The predicate program rejected the input.
    PredicateViolated,
    /// The prover infrastructure failed, or handed back a proof whose
    /// shape no receipt may carry.
    BackendFailure,
}

/// The byte string that seeds the backend's execution context: the
/// journal-encoded private input.
pub fn program_input(request: &ProofRequest) -> (r: Vec<u8>)
    ensures
        r@ == spec_encode_journal(request.input),
{
    encode_journal(request.input)
}

/// Turns the backend's report into a receipt or a classified proof error.
///
/// A completed run yields the receipt with the reported journal and inner
/// proof; a malformed inner proof counts as a backend failure.  A
/// predicate rejection and an infrastructure failure are kept distinct,
/// and neither yields a partial receipt.
pub fn generate(request: &ProofRequest, outcome: BackendOutcome) -> (r: Result<
    Receipt,
    ProofError,
>)
    ensures
        outcome matches BackendOutcome::Completed { journal, inner } ==> if inner_proof_wf(inner) {
            r matches Ok(receipt) && receipt.journal_bytes@ == journal@ && receipt.inner_proof
                == inner && receipt_wf(receipt)
        } else {
            r == Err::<Receipt, ProofError>(ProofError::BackendFailure)
        },
        outcome is PredicateRejected ==> r == Err::<Receipt, ProofError>(
            ProofError::PredicateViolated,
        ),
        outcome is Failed ==> r == Err::<Receipt, ProofError>(ProofError::BackendFailure),
        r is Ok ==> (outcome matches BackendOutcome::Completed { inner, .. }
            && inner_proof_wf(inner)),
{
    match outcome {
        BackendOutcome::Completed { journal, inner } => {
            if check_inner_proof_wf(&inner) {
                Ok(Receipt { journal_bytes: journal, inner_proof: inner })
            } else {
                Err(ProofError::BackendFailure)
            }
        },
        BackendOutcome::PredicateRejected => Err(ProofError::PredicateViolated),
        BackendOutcome::Failed => Err(ProofError::BackendFailure),
    }
}

} // verus!
