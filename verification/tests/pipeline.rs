use cortex_settle::codec::{decode_journal, encode_journal};
use cortex_settle::config::{ConfigError, SubmitConfig};
use cortex_settle::pipeline::{run_pipeline, PipelineError};
use cortex_settle::predicate::{run_predicate, PredicateError};
use cortex_settle::prover::{program_input, BackendOutcome, ProofError, ProofMode, ProofRequest};
use cortex_settle::receipt::InnerProof;
use cortex_settle::seal::SealError;
use cortex_settle::submit::{AwaitEvent, BroadcastOutcome, ChainSession, SubmitError};

fn sample_credential() -> Vec<u8> {
    let mut text = b"0x".to_vec();
    text.extend(vec![b'1'; 64]);
    text
}

fn sample_address() -> Vec<u8> {
    let mut text = b"0x".to_vec();
    text.extend(vec![b'2'; 40]);
    text
}

fn valid_config() -> SubmitConfig {
    SubmitConfig::new(
        Some(sample_credential()),
        b"http://localhost:8545".to_vec(),
        sample_address(),
        43113,
    )
}

fn sample_tx_id() -> Vec<u8> {
    vec![0xcdu8; 32]
}

fn confirmed_session(depth: usize) -> ChainSession {
    ChainSession {
        sign_ok: true,
        broadcast: BroadcastOutcome::Accepted { tx_id: sample_tx_id() },
        events: vec![AwaitEvent::Confirmed; depth],
    }
}

fn succinct_inner() -> InnerProof {
    let mut verifier_parameters = vec![0x51u8; 32];
    verifier_parameters[0] = 0x01;
    InnerProof::Succinct { verifier_parameters, seal_payload: vec![0x77u8; 128] }
}

/// Runs the predicate program model the way the proving backend would and
/// reports what the backend reports.
fn simulated_backend(request: &ProofRequest) -> BackendOutcome {
    let input = program_input(request);
    match run_predicate(&input) {
        Ok(journal) => BackendOutcome::Completed { journal, inner: succinct_inner() },
        Err(PredicateError::Violated) => BackendOutcome::PredicateRejected,
        Err(PredicateError::MalformedInput) => BackendOutcome::Failed,
    }
}

#[test]
fn pipeline_settles_an_even_input_end_to_end() {
    // input 18726318923102 is even: the predicate succeeds, the journal
    // decodes back to the input, the seal fits the succinct variant, and
    // the submission reaches 3 confirmations within the timeout.
    let request = ProofRequest { input: 18726318923102, mode: ProofMode::Succinct };
    let outcome = simulated_backend(&request);
    match &outcome {
        BackendOutcome::Completed { journal, .. } => {
            assert_eq!(decode_journal(journal), Ok(18726318923102));
        },
        other => panic!("expected a completed proof, got {:?}", other),
    }
    let config = valid_config();
    assert_eq!(config.required_confirmations, 3);
    assert_eq!(config.timeout_secs, 10);
    let result = run_pipeline(&request, config, outcome, &confirmed_session(3)).unwrap();
    assert_eq!(result.tx_id, sample_tx_id());
    assert!(!result.tx_id.is_empty());
    assert_eq!(result.confirmations, 3);
}

#[test]
fn pipeline_rejects_an_odd_input_before_any_submission() {
    // input 7 violates the parity predicate: the failure is classified as
    // a predicate violation and no seal or submission stage answers.
    let request = ProofRequest { input: 7, mode: ProofMode::Succinct };
    let outcome = simulated_backend(&request);
    assert!(matches!(outcome, BackendOutcome::PredicateRejected));
    let result = run_pipeline(&request, valid_config(), outcome, &confirmed_session(3));
    assert!(matches!(
        result,
        Err(PipelineError::Proof { error: ProofError::PredicateViolated })
    ));
}

#[test]
fn pipeline_reports_a_timeout_with_the_transaction_id() {
    // broadcast succeeds but the deadline elapses below the required
    // depth: the result is a timeout naming the transaction, not a
    // generic failure.
    let request = ProofRequest { input: 18726318923102, mode: ProofMode::Succinct };
    let outcome = simulated_backend(&request);
    let session = ChainSession {
        sign_ok: true,
        broadcast: BroadcastOutcome::Accepted { tx_id: sample_tx_id() },
        events: vec![AwaitEvent::Confirmed, AwaitEvent::Confirmed, AwaitEvent::Deadline],
    };
    let result = run_pipeline(&request, valid_config(), outcome, &session);
    match result {
        Err(PipelineError::Submit { error: SubmitError::Timeout { tx_id } }) => {
            assert!(!tx_id.is_empty());
            assert_eq!(tx_id, sample_tx_id());
        },
        other => panic!("expected a submission timeout, got {:?}", other),
    }
}

#[test]
fn pipeline_fails_on_a_missing_credential_before_any_other_stage() {
    // with no signer credential the pipeline fails with the configuration
    // error whatever the backend or the chain would have done.
    let request = ProofRequest { input: 18726318923102, mode: ProofMode::Succinct };
    let mut config = valid_config();
    config.signer_credential = None;
    let result = run_pipeline(&request, config, BackendOutcome::Failed, &confirmed_session(3));
    assert!(matches!(
        result,
        Err(PipelineError::Config { error: ConfigError::MissingSignerCredential })
    ));
}

#[test]
fn pipeline_rejects_a_journal_that_commits_another_value() {
    let request = ProofRequest { input: 18726318923102, mode: ProofMode::Succinct };
    let outcome = BackendOutcome::Completed {
        journal: encode_journal(18726318923104),
        inner: succinct_inner(),
    };
    let result = run_pipeline(&request, valid_config(), outcome, &confirmed_session(3));
    assert!(matches!(result, Err(PipelineError::JournalMismatch)));
}

#[test]
fn pipeline_rejects_an_unsupported_proof_variant() {
    let request = ProofRequest { input: 18726318923102, mode: ProofMode::Succinct };
    let outcome = BackendOutcome::Completed {
        journal: encode_journal(18726318923102),
        inner: InnerProof::Unsupported,
    };
    let result = run_pipeline(&request, valid_config(), outcome, &confirmed_session(3));
    assert!(matches!(
        result,
        Err(PipelineError::Seal { error: SealError::UnsupportedProofVariant })
    ));
}

#[test]
fn pipeline_reports_a_revert_as_a_rejection() {
    let request = ProofRequest { input: 18726318923102, mode: ProofMode::Succinct };
    let outcome = simulated_backend(&request);
    let session = ChainSession {
        sign_ok: true,
        broadcast: BroadcastOutcome::Accepted { tx_id: sample_tx_id() },
        events: vec![AwaitEvent::Reverted { reason: b"verifier refused the seal".to_vec() }],
    };
    let result = run_pipeline(&request, valid_config(), outcome, &session);
    match result {
        Err(PipelineError::Submit { error: SubmitError::Rejected { tx_id, reason } }) => {
            assert_eq!(tx_id, sample_tx_id());
            assert_eq!(reason, b"verifier refused the seal".to_vec());
        },
        other => panic!("expected a rejection, got {:?}", other),
    }
}
