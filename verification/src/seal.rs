//! Seal encoding: the on-chain verification payload of a receipt.
//!
//! A seal is a fixed 4-byte selector, identifying the verification method
//! the contract must apply, followed by a variant-specific payload.  The
//! encoding is byte-for-byte deterministic in the receipt.

use crate::codec::append_bytes;
use crate::receipt::{receipt_wf, InnerProof, Receipt};
use vstd::prelude::*;

verus! {

/// Rejection cases of [`encode_seal`].
#[derive(Clone, Copy, Debug, PartialEq, Eq, Structural)]
pub enum SealError {
    /// The receipt's proof variant has no on-chain verification method.
    UnsupportedProofVariant,
}

/// The fixed sentinel selector (all bits set) reserved for the
/// non-succinct development mode.
pub open spec fn placeholder_selector() -> Seq<u8> {
    seq![0xffu8, 0xffu8, 0xffu8, 0xffu8]
}

/// The seal bytes of an inner proof, or `None` for the unsupported variant.
pub open spec fn spec_encode_seal(p: InnerProof) -> Option<Seq<u8>> {
    match p {
        InnerProof::Placeholder { claim_digest } => Some(placeholder_selector() + claim_digest@),
        InnerProof::Succinct { verifier_parameters, seal_payload } => Some(
            verifier_parameters@.subrange(0, 4) + seal_payload@,
        ),
        InnerProof::Unsupported => None,
    }
}

/// Encodes a receipt's inner proof as its on-chain seal.
///
/// Dispatches on the proof variant: the placeholder variant gets the
/// fixed sentinel selector followed by the claim digest verbatim; the
/// succinct variant gets the first 4 bytes of its verifier parameters
/// followed by the seal payload verbatim; the unsupported variant always
/// fails with [`SealError::UnsupportedProofVariant`].
pub fn encode_seal(receipt: &Receipt) -> (r: Result<Vec<u8>, SealError>)
    requires
        receipt_wf(*receipt),
    ensures
        match r {
            Ok(s) => spec_encode_seal(receipt.inner_proof) == Some(s@),
            Err(e) => e == SealError::UnsupportedProofVariant && receipt.inner_proof
                is Unsupported,
        },
        r is Ok <==> !(receipt.inner_proof is Unsupported),
{
    match &receipt.inner_proof {
        InnerProof::Placeholder { claim_digest } => {
            let mut out: Vec<u8> = Vec::new();
            out.push(0xff);
            out.push(0xff);
            out.push(0xff);
            out.push(0xff);
            proof {
                assert(out@ =~= placeholder_selector());
            }
            append_bytes(&mut out, claim_digest);
            Ok(out)
        },
        InnerProof::Succinct { verifier_parameters, seal_payload } => {
            let mut out: Vec<u8> = Vec::new();
            let mut i: usize = 0;
            while i < 4
                invariant
                    i <= 4,
                    verifier_parameters@.len() >= 4,
                    out@ == verifier_parameters@.subrange(0, i as int),
                decreases 4 - i,
            {
                out.push(verifier_parameters[i]);
                i += 1;
                proof {
                    assert(verifier_parameters@.subrange(0, i - 1 as int) + seq![
                        verifier_parameters@[i - 1],
                    ] =~= verifier_parameters@.subrange(0, i as int));
                }
            }
            append_bytes(&mut out, seal_payload);
            Ok(out)
        },
        InnerProof::Unsupported => Err(SealError::UnsupportedProofVariant),
    }
}

/// Law: for every placeholder receipt the seal begins with the fixed
/// sentinel selector, regardless of digest content.
pub proof fn lemma_placeholder_seal_selector(claim_digest: Vec<u8>)
    ensures
        spec_encode_seal(InnerProof::Placeholder { claim_digest }) matches Some(s)
            && s.subrange(0, 4) == placeholder_selector(),
{
    let s = (placeholder_selector() + claim_digest@);
    assert(s.subrange(0, 4) =~= placeholder_selector());
}

/// Law: for every succinct receipt the seal begins with the first 4 bytes
/// of the verifier parameters.
pub proof fn lemma_succinct_seal_selector(verifier_parameters: Vec<u8>, seal_payload: Vec<u8>)
    requires
        verifier_parameters@.len() >= 4,
    ensures
        spec_encode_seal(
            InnerProof::Succinct { verifier_parameters, seal_payload },
        ) matches Some(s) && s.subrange(0, 4) == verifier_parameters@.subrange(0, 4),
{
    let s = (verifier_parameters@.subrange(0, 4) + seal_payload@);
    assert(s.subrange(0, 4) =~= verifier_parameters@.subrange(0, 4));
}

/// Law: the unsupported variant never encodes to a seal.
pub proof fn lemma_unsupported_seal_is_refused()
    ensures
        spec_encode_seal(InnerProof::Unsupported) is None,
{
}

} // verus!
