//! The proof-to-chain settlement pipeline.
//!
//! One invocation runs the stages in order: validate the configuration,
//! classify the proving backend's report into a receipt, check that the
//! committed journal is the requested input, encode the seal, and submit
//! journal and seal to the chain.  Each stage fails with its own class,
//! no stage runs after a failure, and nothing is submitted whose journal
//! the proof does not attest to.

use crate::codec::{decode_journal, spec_decode_journal};
use crate::config::{spec_config_error, ConfigError, SubmitConfig};
use crate::prover::{generate, BackendOutcome, ProofError, ProofRequest};
use crate::receipt::inner_proof_wf;
use crate::seal::{encode_seal, spec_encode_seal, SealError};
use crate::submit::{
    await_rejected, await_rejected_at, await_success, await_timeout, submit, AwaitEvent,
    BroadcastOutcome, ChainSession, SubmissionRequest, SubmissionResult, SubmitError,
};
use vstd::prelude::*;

verus! {

/// The failure of a pipeline invocation, named by the stage it came from.
#[derive(Clone, Debug)]
pub enum PipelineError {
    /// The configuration is invalid; no proving or network work was done.
    Config { error: ConfigError },
    /// Proving failed; nothing was sealed or submitted.
    Proof { error: ProofError },
    /// The proof's committed journal is not the requested input; fatal
    /// before submission, since the proof would not attest to the data
    /// being submitted.
    JournalMismatch,
    /// The receipt has no on-chain verification method.
    Seal { error: SealError },
    /// Submission failed; the error says whether a transaction exists.
    Submit { error: SubmitError },
}

/// The committed journal attests to exactly the requested input value.
pub open spec fn journal_commits_input(journal: Seq<u8>, input: u128) -> bool {
    spec_decode_journal(journal) == Some(input)
}

/// Runs one settlement: configuration check, proving, journal check,
/// seal encoding, submission.
///
/// The backend outcome and the chain session stand for the outside work
/// the stages drive; the contract fixes, for every such report, which
/// stage answers and with what.
pub fn run_pipeline(
    request: &ProofRequest,
    config: SubmitConfig,
    outcome: BackendOutcome,
    session: &ChainSession,
) -> (r: Result<SubmissionResult, PipelineError>)
    ensures
        match r {
            Ok(res) => spec_config_error(config) is None && (outcome matches
                BackendOutcome::Completed { journal, inner } && inner_proof_wf(inner)
                && journal_commits_input(journal@, request.input) && spec_encode_seal(inner)
                is Some && session.sign_ok && (session.broadcast matches
                BroadcastOutcome::Accepted { tx_id } && await_success(
                session.events@,
                config.required_confirmations as int,
            ) && res.tx_id@ == tx_id@ && res.confirmations == config.required_confirmations)),
            Err(PipelineError::Config { error }) => spec_config_error(config) == Some(error),
            Err(PipelineError::Proof { error }) => spec_config_error(config) is None && match error {
                ProofError::PredicateViolated => outcome is PredicateRejected,
                ProofError::BackendFailure => outcome is Failed || (outcome matches
                    BackendOutcome::Completed { inner, .. } && !inner_proof_wf(inner)),
            },
            Err(PipelineError::JournalMismatch) => spec_config_error(config) is None && (outcome
                matches BackendOutcome::Completed { journal, inner } && inner_proof_wf(inner)
                && !journal_commits_input(journal@, request.input)),
            Err(PipelineError::Seal { error }) => spec_config_error(config) is None && error
                == SealError::UnsupportedProofVariant && (outcome matches
                BackendOutcome::Completed { journal, inner } && inner_proof_wf(inner)
                && journal_commits_input(journal@, request.input) && inner is Unsupported),
            Err(PipelineError::Submit { error }) => spec_config_error(config) is None && (outcome
                matches BackendOutcome::Completed { journal, inner } && inner_proof_wf(inner)
                && journal_commits_input(journal@, request.input) && !(inner is Unsupported))
                && match error {
                SubmitError::Config { .. } => false,
                SubmitError::Signing => !session.sign_ok,
                SubmitError::Broadcast => session.sign_ok && session.broadcast is Failed,
                SubmitError::Timeout { tx_id: t } => session.sign_ok && (session.broadcast matches
                    BroadcastOutcome::Accepted { tx_id } && await_timeout(
                    session.events@,
                    config.required_confirmations as int,
                ) && t@ == tx_id@),
                SubmitError::Rejected { tx_id: t, reason } => session.sign_ok && (session.broadcast
                    matches BroadcastOutcome::Accepted { tx_id } && await_rejected(
                    session.events@,
                    config.required_confirmations as int,
                ) && t@ == tx_id@ && exists|j: int|
                    await_rejected_at(session.events@, config.required_confirmations as int, j) && (
                    (#[trigger] session.events@[j]) matches AwaitEvent::Reverted { reason: cause }
                        && reason@ == cause@)),
            },
        },
{
    // Configuration is validated before any proving or network work.
    if let Err(error) = crate::config::validate_config(&config) {
        return Err(PipelineError::Config { error });
    }
    let (journal, seal) = match prepare_submission(request, outcome) {
        Ok(payload) => payload,
        Err(error) => {
            return Err(error);
        },
    };
    let submission = SubmissionRequest { config, journal, seal };
    match submit(&submission, session) {
        Ok(res) => Ok(res),
        Err(error) => Err(PipelineError::Submit { error }),
    }
}

/// Runs the proving stages of one settlement: classify the backend's
/// report, check the committed journal against the requested input, and
/// encode the seal.  Yields the journal value and seal bytes that are to
/// be submitted, or the stage's failure.
pub fn prepare_submission(request: &ProofRequest, outcome: BackendOutcome) -> (r: Result<
    (u128, Vec<u8>),
    PipelineError,
>)
    ensures
        match r {
            Ok(payload) => (outcome matches BackendOutcome::Completed { journal, inner }
                && inner_proof_wf(inner) && journal_commits_input(journal@, request.input)
                && payload.0 == request.input && spec_encode_seal(inner) == Some(payload.1@)),
            Err(PipelineError::Proof { error }) => match error {
                ProofError::PredicateViolated => outcome is PredicateRejected,
                ProofError::BackendFailure => outcome is Failed || (outcome matches
                    BackendOutcome::Completed { inner, .. } && !inner_proof_wf(inner)),
            },
            Err(PipelineError::JournalMismatch) => (outcome matches BackendOutcome::Completed {
                journal,
                inner,
            } && inner_proof_wf(inner) && !journal_commits_input(journal@, request.input)),
            Err(PipelineError::Seal { error }) => error == SealError::UnsupportedProofVariant && (
            outcome matches BackendOutcome::Completed { journal, inner } && inner_proof_wf(inner)
                && journal_commits_input(journal@, request.input) && inner is Unsupported),
            _ => false,
        },
{
    let receipt = match generate(request, outcome) {
        Ok(receipt) => receipt,
        Err(error) => {
            return Err(PipelineError::Proof { error });
        },
    };
    // The committed journal must be the value being submitted.
    let journal = match decode_journal(&receipt.journal_bytes) {
        Ok(value) => value,
        Err(_) => {
            return Err(PipelineError::JournalMismatch);
        },
    };
    if journal != request.input {
        return Err(PipelineError::JournalMismatch);
    }
    let seal = match encode_seal(&receipt) {
        Ok(seal) => seal,
        Err(error) => {
            return Err(PipelineError::Seal { error });
        },
    };
    Ok((journal, seal))
}

} // verus!
