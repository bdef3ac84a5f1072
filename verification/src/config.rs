//! Submission configuration and its validation.
//!
//! Configuration is an explicit value built once and passed into the
//! submitter: signer credential, network endpoint, target contract
//! address, chain identifier, required confirmation depth and timeout.
//! Validation checks the credential and address before any signing or
//! network work is attempted, and classifies what is wrong.

use crate::codec::append_bytes;
use vstd::prelude::*;

verus! {

/// Confirmation depth a submission waits for unless configured otherwise.
pub const DEFAULT_REQUIRED_CONFIRMATIONS: u64 = 3;

/// Seconds a submission waits for confirmations unless configured otherwise.
pub const DEFAULT_TIMEOUT_SECS: u64 = 10;

/// Rejection cases of [`validate_config`]; all are fatal and none is
/// reported only after network or prover work.
#[derive(Clone, Copy, Debug, PartialEq, Eq, Structural)]
pub enum ConfigError {
    /// No signer credential was supplied.
    MissingSignerCredential,
    /// The signer credential is not a 32-byte hex string.
    MalformedSignerCredential,
    /// The contract address is not a 20-byte hex string.
    MalformedContractAddress,
    /// No network endpoint was supplied.
    MissingEndpoint,
}

/// Settings for one submission, as supplied externally.
///
/// The credential and address are ASCII hex text, with an optional `0x`
/// prefix; the endpoint is kept opaque.  The signer credential is
/// sensitive: it is scoped to the submission it configures and is never
/// echoed back in any error.
#[derive(Clone, Debug, PartialEq)]
pub struct SubmitConfig {
    /// The signer's private key as hex text, absent when not configured.
    pub signer_credential: Option<Vec<u8>>,
    /// The network endpoint the transaction is broadcast to.
    pub endpoint: Vec<u8>,
    /// The verifier contract's address as hex text.
    pub contract_address: Vec<u8>,
    /// The ledger the contract lives on.
    pub chain_id: u64,
    /// Confirmation depth to wait for after inclusion.
    pub required_confirmations: u64,
    /// Bound on the confirmation wait, in seconds.
    pub timeout_secs: u64,
}

/// The validated form: credential and address decoded to raw bytes.
#[derive(Clone, Debug, PartialEq)]
pub struct ValidatedConfig {
    /// The signer's 32-byte private key.
    pub signer_key: Vec<u8>,
    /// The network endpoint, as supplied.
    pub endpoint: Vec<u8>,
    /// The verifier contract's 20-byte address.
    pub contract_address: Vec<u8>,
    /// The ledger the contract lives on.
    pub chain_id: u64,
    /// Confirmation depth to wait for after inclusion.
    pub required_confirmations: u64,
    /// Bound on the confirmation wait, in seconds.
    pub timeout_secs: u64,
}

impl SubmitConfig {
    /// Builds a configuration with the default confirmation depth and
    /// timeout.
    pub fn new(
        signer_credential: Option<Vec<u8>>,
        endpoint: Vec<u8>,
        contract_address: Vec<u8>,
        chain_id: u64,
    ) -> (r: SubmitConfig)
        ensures
            r.signer_credential == signer_credential,
            r.endpoint == endpoint,
            r.contract_address == contract_address,
            r.chain_id == chain_id,
            r.required_confirmations == DEFAULT_REQUIRED_CONFIRMATIONS,
            r.timeout_secs == DEFAULT_TIMEOUT_SECS,
    {
        SubmitConfig {
            signer_credential,
            endpoint,
            contract_address,
            chain_id,
            required_confirmations: DEFAULT_REQUIRED_CONFIRMATIONS,
            timeout_secs: DEFAULT_TIMEOUT_SECS,
        }
    }
}

/// An ASCII hexadecimal digit.
pub open spec fn is_hex_digit(c: u8) -> bool {
    (0x30 <= c <= 0x39) || (0x41 <= c <= 0x46) || (0x61 <= c <= 0x66)
}

/// The value of an ASCII hexadecimal digit.
pub open spec fn hex_digit_value(c: u8) -> u8 {
    if 0x30 <= c <= 0x39 {
        (c - 0x30) as u8
    } else if 0x41 <= c <= 0x46 {
        (c - 0x41 + 10) as u8
    } else {
        (c - 0x61 + 10) as u8
    }
}

/// Every byte of the sequence is an ASCII hexadecimal digit.
pub open spec fn all_hex_digits(s: Seq<u8>) -> bool {
    forall|i: int| 0 <= i < s.len() ==> is_hex_digit(s[i])
}

/// The hex text with any leading `0x` or `0X` removed.
pub open spec fn hex_payload(s: Seq<u8>) -> Seq<u8> {
    if s.len() >= 2 && s[0] == 0x30u8 && (s[1] == 0x78u8 || s[1] == 0x58u8) {
        s.subrange(2, s.len() as int)
    } else {
        s
    }
}

/// The bytes that a sequence of hex digit pairs spells out.
pub open spec fn spec_hex_decode(s: Seq<u8>) -> Seq<u8> {
    Seq::new(
        (s.len() / 2) as nat,
        |i: int| (hex_digit_value(s[2 * i]) * 16 + hex_digit_value(s[2 * i + 1])) as u8,
    )
}

/// Hex text spells out `n` raw bytes: an optional prefix, then exactly
/// `2 * n` hex digits.
pub open spec fn hex_text_ok(s: Seq<u8>, n: int) -> bool {
    hex_payload(s).len() == 2 * n && all_hex_digits(hex_payload(s))
}

/// The error a configuration is rejected with, checked in a fixed order;
/// `None` when the configuration is valid.
pub open spec fn spec_config_error(cfg: SubmitConfig) -> Option<ConfigError> {
    if cfg.signer_credential is None {
        Some(ConfigError::MissingSignerCredential)
    } else if !hex_text_ok(cfg.signer_credential->0@, 32) {
        Some(ConfigError::MalformedSignerCredential)
    } else if !hex_text_ok(cfg.contract_address@, 20) {
        Some(ConfigError::MalformedContractAddress)
    } else if cfg.endpoint@.len() == 0 {
        Some(ConfigError::MissingEndpoint)
    } else {
        None
    }
}

/// A valid configuration decodes to exactly this validated form.
pub open spec fn validated_config_ok(cfg: SubmitConfig, v: ValidatedConfig) -> bool {
    &&& cfg.signer_credential matches Some(cred) && v.signer_key@ == spec_hex_decode(
        hex_payload(cred@),
    )
    &&& v.endpoint@ == cfg.endpoint@
    &&& v.contract_address@ == spec_hex_decode(hex_payload(cfg.contract_address@))
    &&& v.chain_id == cfg.chain_id
    &&& v.required_confirmations == cfg.required_confirmations
    &&& v.timeout_secs == cfg.timeout_secs
}

/// Returns the index where the hex digits start: past a `0x` or `0X`
/// prefix, else at the front.
fn hex_start(s: &Vec<u8>) -> (r: usize)
    ensures
        r <= s@.len(),
        hex_payload(s@) == s@.subrange(r as int, s@.len() as int),
{
    if s.len() >= 2 && s[0] == 0x30 && (s[1] == 0x78 || s[1] == 0x58) {
        2
    } else {
        proof {
            assert(s@.subrange(0, s@.len() as int) =~= s@);
        }
        0
    }
}

/// The value of one hex digit, or `None` for any other byte.
fn hex_digit_checked(c: u8) -> (r: Option<u8>)
    ensures
        r is Some <==> is_hex_digit(c),
        r matches Some(v) ==> v == hex_digit_value(c),
{
    if 0x30 <= c && c <= 0x39 {
        Some(c - 0x30)
    } else if 0x41 <= c && c <= 0x46 {
        Some(c - 0x41 + 10)
    } else if 0x61 <= c && c <= 0x66 {
        Some(c - 0x61 + 10)
    } else {
        None
    }
}

/// Decodes hex text (optional `0x` prefix) into raw bytes, or `None`
/// when a byte is not a hex digit or the digit count is odd.
pub fn decode_hex(text: &Vec<u8>) -> (r: Option<Vec<u8>>)
    ensures
        match r {
            Some(out) => all_hex_digits(hex_payload(text@)) && hex_payload(text@).len() % 2 == 0
                && out@ == spec_hex_decode(hex_payload(text@)),
            None => !(all_hex_digits(hex_payload(text@)) && hex_payload(text@).len() % 2 == 0),
        },
{
    let start = hex_start(text);
    let ghost payload = hex_payload(text@);
    if (text.len() - start) % 2 != 0 {
        return None;
    }
    let mut out: Vec<u8> = Vec::new();
    let mut i: usize = start;
    while i < text.len()
        invariant
            start <= i <= text@.len(),
            (i - start) % 2 == 0,
            (text@.len() - start) % 2 == 0,
            payload == hex_payload(text@),
            payload == text@.subrange(start as int, text@.len() as int),
            payload.len() == text@.len() - start,
            forall|j: int| start <= j < i ==> is_hex_digit(text@[j]),
            out@.len() == (i - start) / 2,
            forall|k: int|
                0 <= k < out@.len() ==> out@[k] == (hex_digit_value(payload[2 * k]) * 16
                    + hex_digit_value(payload[2 * k + 1])) as u8,
        decreases text@.len() - i,
    {
        let hi = text[i];
        let lo = text[i + 1];
        let hv = match hex_digit_checked(hi) {
            Some(v) => v,
            None => {
                proof {
                    assert(payload[i - start] == text@[i as int]);
                    assert(!is_hex_digit(payload[i - start]));
                    assert(!all_hex_digits(payload));
                }
                return None;
            },
        };
        let lv = match hex_digit_checked(lo) {
            Some(v) => v,
            None => {
                proof {
                    assert(payload[i + 1 - start] == text@[i as int + 1]);
                    assert(!is_hex_digit(payload[i + 1 - start]));
                    assert(!all_hex_digits(payload));
                }
                return None;
            },
        };
        out.push(hv * 16 + lv);
        proof {
            assert(payload[2 * ((i - start) / 2)] == text@[i as int]);
            assert(payload[2 * ((i - start) / 2) + 1] == text@[i as int + 1]);
        }
        i += 2;
    }
    proof {
        assert(out@ =~= spec_hex_decode(payload));
    }
    Some(out)
}

/// Validates a configuration, decoding the credential and address.
///
/// Checks run in a fixed order — credential present, credential a
/// 32-byte hex string, address a 20-byte hex string, endpoint present —
/// and the first to fail names the error; a valid configuration yields
/// its validated form and nothing else is ever reported valid.
pub fn validate_config(cfg: &SubmitConfig) -> (r: Result<ValidatedConfig, ConfigError>)
    ensures
        match r {
            Ok(v) => spec_config_error(*cfg) is None && validated_config_ok(*cfg, v),
            Err(e) => spec_config_error(*cfg) == Some(e),
        },
{
    let cred = match &cfg.signer_credential {
        Some(c) => c,
        None => {
            return Err(ConfigError::MissingSignerCredential);
        },
    };
    let signer_key = match decode_hex(cred) {
        Some(k) => k,
        None => {
            return Err(ConfigError::MalformedSignerCredential);
        },
    };
    if signer_key.len() != 32 {
        return Err(ConfigError::MalformedSignerCredential);
    }
    let contract_address = match decode_hex(&cfg.contract_address) {
        Some(a) => a,
        None => {
            return Err(ConfigError::MalformedContractAddress);
        },
    };
    if contract_address.len() != 20 {
        return Err(ConfigError::MalformedContractAddress);
    }
    if cfg.endpoint.len() == 0 {
        return Err(ConfigError::MissingEndpoint);
    }
    let mut endpoint: Vec<u8> = Vec::new();
    append_bytes(&mut endpoint, &cfg.endpoint);
    Ok(
        ValidatedConfig {
            signer_key,
            endpoint,
            contract_address,
            chain_id: cfg.chain_id,
            required_confirmations: cfg.required_confirmations,
            timeout_secs: cfg.timeout_secs,
        },
    )
}

} // verus!
