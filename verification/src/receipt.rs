//! The result of a proving run.
//!
//! A receipt carries the public journal bytes committed by the predicate
//! program and an opaque, variant-tagged inner proof.  The variant set is
//! closed: new proof systems extend the enum and the seal encoder branch.

use vstd::prelude::*;

verus! {

/// The tagged inner proof of a receipt, one tag per verification strategy.
#[derive(Clone, Debug)]
pub enum InnerProof {
    /// A non-succinct, development-only attestation carrying the 32-byte
    /// digest of the claim it stands for.
    Placeholder { claim_digest: Vec<u8> },
    /// A real zero-knowledge proof.  The hash of the verifier parameters
    /// identifies which on-chain verifier circuit accepts the payload.
    Succinct { verifier_parameters: Vec<u8>, seal_payload: Vec<u8> },
    /// Any other proof kind; always an error condition downstream.
    Unsupported,
}

/// The opaque result of proving: public journal bytes plus an inner proof.
#[derive(Clone, Debug)]
pub struct Receipt {
    /// The committed public output, in the canonical journal layout.
    pub journal_bytes: Vec<u8>,
    /// The variant-tagged proof.
    pub inner_proof: InnerProof,
}

/// Well-formedness of an inner proof: the placeholder digest is a 32-byte
/// hash, and succinct verifier parameters are long enough to name a
/// 4-byte selector.
pub open spec fn inner_proof_wf(p: InnerProof) -> bool {
    match p {
        InnerProof::Placeholder { claim_digest } => claim_digest@.len() == 32,
        InnerProof::Succinct { verifier_parameters, seal_payload } => verifier_parameters@.len()
            >= 4,
        InnerProof::Unsupported => true,
    }
}

/// Well-formedness of a whole receipt.
pub open spec fn receipt_wf(r: Receipt) -> bool {
    inner_proof_wf(r.inner_proof)
}

/// Checks at run time that an inner proof is well formed.
pub fn check_inner_proof_wf(p: &InnerProof) -> (b: bool)
    ensures
        b == inner_proof_wf(*p),
{
    match p {
        InnerProof::Placeholder { claim_digest } => claim_digest.len() == 32,
        InnerProof::Succinct { verifier_parameters, seal_payload: _ } => verifier_parameters.len()
            >= 4,
        InnerProof::Unsupported => true,
    }
}

} // verus!
