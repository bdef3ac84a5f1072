//! Chain submission: signing, broadcast, and the confirmation wait.
//!
//! Signing, broadcasting and watching the chain are outside work; the
//! decisions around them live here.  A submission validates its
//! configuration, then walks the session's reported events in order:
//! broadcast must succeed before any confirmation counts, the wait ends
//! at the required depth, at the deadline, or at a revert, and every
//! failure after broadcast carries the transaction identifier so state
//! can be reconciled.

use crate::codec::append_bytes;
use crate::config::{spec_config_error, validate_config, ConfigError, SubmitConfig};
use vstd::prelude::*;

verus! {

/// What became of the broadcast: the node acknowledged the transaction
/// and named it, or the send failed before the network knew of it.
#[derive(Clone, Debug)]
pub enum BroadcastOutcome {
    /// The node accepted the transaction under this identifier.
    Accepted { tx_id: Vec<u8> },
    /// The send failed; retrying from scratch is safe.
    Failed,
}

/// One observation during the confirmation wait, in the order seen.
#[derive(Clone, Debug)]
pub enum AwaitEvent {
    /// The inclusion gained one confirmation of depth.
    Confirmed,
    /// The configured timeout elapsed.
    Deadline,
    /// The network reported the transaction reverted, with its reason.
    Reverted { reason: Vec<u8> },
}

/// What the chain did for one submission: the signing outcome, the
/// broadcast outcome, and the confirmation events in order.
#[derive(Clone, Debug)]
pub struct ChainSession {
    /// Whether the transaction could be signed.
    pub sign_ok: bool,
    /// The broadcast outcome; meaningful only when signing succeeded.
    pub broadcast: BroadcastOutcome,
    /// The events observed while awaiting confirmations.
    pub events: Vec<AwaitEvent>,
}

/// One submission: the payload to store and the configuration to use.
#[derive(Clone, Debug)]
pub struct SubmissionRequest {
    /// The settings the submission runs under.
    pub config: SubmitConfig,
    /// The decoded journal value the contract entry point takes.
    pub journal: u128,
    /// The seal bytes the contract entry point takes.
    pub seal: Vec<u8>,
}

/// A durably accepted submission.
#[derive(Clone, Debug)]
pub struct SubmissionResult {
    /// The identifier of the accepted transaction.
    pub tx_id: Vec<u8>,
    /// The confirmation depth reached.
    pub confirmations: u64,
}

/// Classified failures of [`submit`].  Failures after broadcast carry the
/// transaction identifier.
#[derive(Clone, Debug)]
pub enum SubmitError {
    /// The configuration is invalid; nothing was signed or sent.
    Config { error: ConfigError },
    /// The transaction could not be signed; fatal.
    Signing,
    /// The broadcast failed before the network knew the transaction;
    /// safe to retry from scratch.
    Broadcast,
    /// The required depth was not reached in time.  The transaction may
    /// still confirm: poll the identifier, do not blindly re-submit.
    Timeout { tx_id: Vec<u8> },
    /// The network reported the transaction reverted; re-submitting the
    /// same payload would revert again.
    Rejected { tx_id: Vec<u8>, reason: Vec<u8> },
}

/// The first `j` events are all confirmations.
pub open spec fn confirmed_prefix(events: Seq<AwaitEvent>, j: int) -> bool {
    forall|i: int| 0 <= i < j ==> events[i] is Confirmed
}

/// The wait reaches the required depth: the first `required` events are
/// confirmations.
pub open spec fn await_success(events: Seq<AwaitEvent>, required: int) -> bool {
    required <= events.len() && confirmed_prefix(events, required)
}

/// The deadline elapses at position `j`, before the depth is reached.
pub open spec fn await_deadline_at(events: Seq<AwaitEvent>, required: int, j: int) -> bool {
    0 <= j < required && j < events.len() && confirmed_prefix(events, j) && events[j] is Deadline
}

/// The wait times out: the deadline elapses first, or the session ends
/// before the depth is reached.
pub open spec fn await_timeout(events: Seq<AwaitEvent>, required: int) -> bool {
    (exists|j: int| await_deadline_at(events, required, j)) || (events.len() < required
        && confirmed_prefix(events, events.len() as int))
}

/// A revert is reported at position `j`, before the depth is reached.
pub open spec fn await_rejected_at(events: Seq<AwaitEvent>, required: int, j: int) -> bool {
    0 <= j < required && j < events.len() && confirmed_prefix(events, j) && events[j] is Reverted
}

/// The network reports a revert before the depth is reached.
pub open spec fn await_rejected(events: Seq<AwaitEvent>, required: int) -> bool {
    exists|j: int| await_rejected_at(events, required, j)
}

/// Copies a byte string.
fn copy_bytes(src: &Vec<u8>) -> (r: Vec<u8>)
    ensures
        r@ == src@,
{
    let mut out: Vec<u8> = Vec::new();
    append_bytes(&mut out, src);
    proof {
        assert(Seq::<u8>::empty() + src@ =~= src@);
    }
    out
}

/// Waits out the confirmation events for an acknowledged transaction.
fn await_confirmations(tx_id: &Vec<u8>, events: &Vec<AwaitEvent>, required: u64) -> (r: Result<
    SubmissionResult,
    SubmitError,
>)
    ensures
        match r {
            Ok(res) => await_success(events@, required as int) && res.tx_id@ == tx_id@
                && res.confirmations == required,
            Err(SubmitError::Timeout { tx_id: t }) => await_timeout(events@, required as int)
                && t@ == tx_id@,
            Err(SubmitError::Rejected { tx_id: t, reason }) => await_rejected(
                events@,
                required as int,
            ) && t@ == tx_id@ && exists|j: int|
                await_rejected_at(events@, required as int, j) && ((#[trigger] events@[j]) matches
                    AwaitEvent::Reverted { reason: cause } && reason@ == cause@),
            _ => false,
        },
{
    let mut confirmed: u64 = 0;
    let mut i: usize = 0;
    while confirmed < required
        invariant
            i <= events@.len(),
            confirmed as int == i as int,
            confirmed <= required,
            confirmed_prefix(events@, i as int),
        decreases events@.len() - i,
    {
        if i == events.len() {
            // The session ended below the required depth: a timeout.
            return Err(SubmitError::Timeout { tx_id: copy_bytes(tx_id) });
        }
        let event = &events[i];
        match event {
            AwaitEvent::Confirmed => {
                confirmed = confirmed + 1;
                i = i + 1;
            },
            AwaitEvent::Deadline => {
                proof {
                    assert(await_deadline_at(events@, required as int, i as int));
                }
                return Err(SubmitError::Timeout { tx_id: copy_bytes(tx_id) });
            },
            AwaitEvent::Reverted { reason } => {
                proof {
                    assert(await_rejected_at(events@, required as int, i as int));
                }
                return Err(
                    SubmitError::Rejected {
                        tx_id: copy_bytes(tx_id),
                        reason: copy_bytes(reason),
                    },
                );
            },
        }
    }
    Ok(SubmissionResult { tx_id: copy_bytes(tx_id), confirmations: required })
}

/// Signs and broadcasts a submission, then waits for confirmations.
///
/// The steps run in order, each with its own failure class: validate the
/// configuration, sign, broadcast, await the required depth within the
/// timeout.  No confirmation counts before the node acknowledges the
/// transaction, and every failure after broadcast names the transaction.
pub fn submit(request: &SubmissionRequest, session: &ChainSession) -> (r: Result<
    SubmissionResult,
    SubmitError,
>)
    ensures
        match r {
            Ok(res) => spec_config_error(request.config) is None && session.sign_ok
                && (session.broadcast matches BroadcastOutcome::Accepted { tx_id }
                && await_success(session.events@, request.config.required_confirmations as int)
                && res.tx_id@ == tx_id@ && res.confirmations
                == request.config.required_confirmations),
            Err(SubmitError::Config { error }) => spec_config_error(request.config) == Some(error),
            Err(SubmitError::Signing) => spec_config_error(request.config) is None
                && !session.sign_ok,
            Err(SubmitError::Broadcast) => spec_config_error(request.config) is None
                && session.sign_ok && session.broadcast is Failed,
            Err(SubmitError::Timeout { tx_id: t }) => spec_config_error(request.config) is None
                && session.sign_ok && (session.broadcast matches BroadcastOutcome::Accepted {
                tx_id,
            } && await_timeout(session.events@, request.config.required_confirmations as int)
                && t@ == tx_id@),
            Err(SubmitError::Rejected { tx_id: t, reason }) => spec_config_error(request.config)
                is None && session.sign_ok && (session.broadcast
                matches BroadcastOutcome::Accepted { tx_id } && await_rejected(
                session.events@,
                request.config.required_confirmations as int,
            ) && t@ == tx_id@ && exists|j: int|
                await_rejected_at(session.events@, request.config.required_confirmations as int, j)
                    && ((#[trigger] session.events@[j]) matches AwaitEvent::Reverted {
                    reason: cause,
                } && reason@ == cause@)),
        },
{
    if let Err(error) = validate_config(&request.config) {
        return Err(SubmitError::Config { error });
    }
    if !session.sign_ok {
        return Err(SubmitError::Signing);
    }
    match &session.broadcast {
        BroadcastOutcome::Failed => Err(SubmitError::Broadcast),
        BroadcastOutcome::Accepted { tx_id } => await_confirmations(
            tx_id,
            &session.events,
            request.config.required_confirmations,
        ),
    }
}

} // verus!
