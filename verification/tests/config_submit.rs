use cortex_settle::config::{
    decode_hex, validate_config, ConfigError, SubmitConfig, DEFAULT_REQUIRED_CONFIRMATIONS,
    DEFAULT_TIMEOUT_SECS,
};
use cortex_settle::submit::{
    submit, AwaitEvent, BroadcastOutcome, ChainSession, SubmissionRequest, SubmitError,
};

fn sample_credential() -> Vec<u8> {
    let mut text = b"0x".to_vec();
    text.extend(vec![b'1'; 64]);
    text
}

fn sample_address() -> Vec<u8> {
    let mut text = b"0x".to_vec();
    text.extend(vec![b'2'; 40]);
    text
}

fn valid_config() -> SubmitConfig {
    SubmitConfig::new(
        Some(sample_credential()),
        b"http://localhost:8545".to_vec(),
        sample_address(),
        43113,
    )
}

fn sample_tx_id() -> Vec<u8> {
    vec![0xaau8; 32]
}

fn accepted_session(events: Vec<AwaitEvent>) -> ChainSession {
    ChainSession {
        sign_ok: true,
        broadcast: BroadcastOutcome::Accepted { tx_id: sample_tx_id() },
        events,
    }
}

fn request_with(config: SubmitConfig) -> SubmissionRequest {
    SubmissionRequest { config, journal: 18726318923102, seal: vec![0xffu8; 36] }
}

#[test]
fn new_config_uses_the_default_policy() {
    let config = valid_config();
    assert_eq!(config.required_confirmations, DEFAULT_REQUIRED_CONFIRMATIONS);
    assert_eq!(config.required_confirmations, 3);
    assert_eq!(config.timeout_secs, DEFAULT_TIMEOUT_SECS);
    assert_eq!(config.timeout_secs, 10);
}

#[test]
fn validate_accepts_a_valid_config_and_decodes_it() {
    let validated = validate_config(&valid_config()).unwrap();
    assert_eq!(validated.signer_key, vec![0x11u8; 32]);
    assert_eq!(validated.contract_address, vec![0x22u8; 20]);
    assert_eq!(validated.chain_id, 43113);
    assert_eq!(validated.required_confirmations, 3);
    assert_eq!(validated.timeout_secs, 10);
}

#[test]
fn validate_rejects_a_missing_credential() {
    let mut config = valid_config();
    config.signer_credential = None;
    assert_eq!(validate_config(&config), Err(ConfigError::MissingSignerCredential));
}

#[test]
fn validate_rejects_a_malformed_credential() {
    let mut config = valid_config();
    config.signer_credential = Some(b"0xzz".to_vec());
    assert_eq!(validate_config(&config), Err(ConfigError::MalformedSignerCredential));
    config.signer_credential = Some(vec![b'1'; 63]);
    assert_eq!(validate_config(&config), Err(ConfigError::MalformedSignerCredential));
    config.signer_credential = Some(Vec::new());
    assert_eq!(validate_config(&config), Err(ConfigError::MalformedSignerCredential));
}

#[test]
fn validate_rejects_a_malformed_address() {
    let mut config = valid_config();
    config.contract_address = vec![b'2'; 39];
    assert_eq!(validate_config(&config), Err(ConfigError::MalformedContractAddress));
    config.contract_address = b"0xnot-an-address".to_vec();
    assert_eq!(validate_config(&config), Err(ConfigError::MalformedContractAddress));
}

#[test]
fn validate_rejects_an_empty_endpoint() {
    let mut config = valid_config();
    config.endpoint = Vec::new();
    assert_eq!(validate_config(&config), Err(ConfigError::MissingEndpoint));
}

#[test]
fn decode_hex_handles_prefix_and_case() {
    assert_eq!(decode_hex(&b"0xDeadBEEF".to_vec()), Some(vec![0xde, 0xad, 0xbe, 0xef]));
    assert_eq!(decode_hex(&b"00ff10".to_vec()), Some(vec![0x00, 0xff, 0x10]));
    assert_eq!(decode_hex(&b"0X0a".to_vec()), Some(vec![0x0a]));
    assert_eq!(decode_hex(&b"".to_vec()), Some(Vec::new()));
}

#[test]
fn decode_hex_rejects_odd_or_non_hex_text() {
    assert_eq!(decode_hex(&b"abc".to_vec()), None);
    assert_eq!(decode_hex(&b"0xg1".to_vec()), None);
    assert_eq!(decode_hex(&b"12 34".to_vec()), None);
}

#[test]
fn submit_reports_a_config_error_before_any_session_work() {
    let mut config = valid_config();
    config.signer_credential = None;
    let session = accepted_session(vec![AwaitEvent::Confirmed; 3]);
    let result = submit(&request_with(config), &session);
    assert!(matches!(
        result,
        Err(SubmitError::Config { error: ConfigError::MissingSignerCredential })
    ));
}

#[test]
fn submit_reports_a_signing_failure() {
    let session = ChainSession {
        sign_ok: false,
        broadcast: BroadcastOutcome::Failed,
        events: Vec::new(),
    };
    let result = submit(&request_with(valid_config()), &session);
    assert!(matches!(result, Err(SubmitError::Signing)));
}

#[test]
fn submit_reports_a_broadcast_failure() {
    let session = ChainSession {
        sign_ok: true,
        broadcast: BroadcastOutcome::Failed,
        events: Vec::new(),
    };
    let result = submit(&request_with(valid_config()), &session);
    assert!(matches!(result, Err(SubmitError::Broadcast)));
}

#[test]
fn submit_succeeds_at_the_required_depth() {
    let session = accepted_session(vec![AwaitEvent::Confirmed; 3]);
    let result = submit(&request_with(valid_config()), &session).unwrap();
    assert_eq!(result.tx_id, sample_tx_id());
    assert_eq!(result.confirmations, 3);
}

#[test]
fn submit_stops_counting_at_the_required_depth() {
    let session = accepted_session(vec![AwaitEvent::Confirmed; 5]);
    let result = submit(&request_with(valid_config()), &session).unwrap();
    assert_eq!(result.confirmations, 3);
}

#[test]
fn submit_times_out_at_the_deadline_and_names_the_transaction() {
    let session = accepted_session(vec![AwaitEvent::Confirmed, AwaitEvent::Deadline]);
    let result = submit(&request_with(valid_config()), &session);
    match result {
        Err(SubmitError::Timeout { tx_id }) => {
            assert!(!tx_id.is_empty());
            assert_eq!(tx_id, sample_tx_id());
        },
        other => panic!("expected a timeout, got {:?}", other),
    }
}

#[test]
fn submit_times_out_when_the_session_ends_below_the_depth() {
    let session = accepted_session(vec![AwaitEvent::Confirmed, AwaitEvent::Confirmed]);
    let result = submit(&request_with(valid_config()), &session);
    assert!(matches!(result, Err(SubmitError::Timeout { .. })));
}

#[test]
fn submit_reports_a_revert_with_its_reason() {
    let session = accepted_session(vec![
        AwaitEvent::Confirmed,
        AwaitEvent::Reverted { reason: b"store failed".to_vec() },
    ]);
    let result = submit(&request_with(valid_config()), &session);
    match result {
        Err(SubmitError::Rejected { tx_id, reason }) => {
            assert_eq!(tx_id, sample_tx_id());
            assert_eq!(reason, b"store failed".to_vec());
        },
        other => panic!("expected a rejection, got {:?}", other),
    }
}

#[test]
fn submit_honours_a_configured_confirmation_depth() {
    let mut config = valid_config();
    config.required_confirmations = 1;
    let session = accepted_session(vec![AwaitEvent::Confirmed]);
    let result = submit(&request_with(config), &session).unwrap();
    assert_eq!(result.confirmations, 1);
}
