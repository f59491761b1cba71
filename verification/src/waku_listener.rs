//! What the Waku listener decides about the agreements it receives: which are
//! forwarded to the mint trigger, which are refused and with what error, and
//! how forwarding shows in the status counters.
use vstd::prelude::*;
use crate::error::TimeModuleError;
use crate::trusted::unix_time_secs;
use crate::signing::{agreement_signing_hash, is_signed_by, signed_by};
use crate::types::{ModuleStatus, WorkAgreement};

verus! {

/// How long the listener waits before reconnecting after an error, in seconds.
pub const RECONNECT_DELAY_SECS: u64 = 5;

/// How often a connected listener reports that it is alive, in seconds.
pub const HEARTBEAT_SECS: u64 = 30;

/// Why an agreement is refused: the message of the error, and whether it is
/// an `InvalidAgreement` or a `SignatureError`.
pub enum Refusal {
    Invalid(Seq<char>),
    BadSignature(Seq<char>),
}

/// Why an agreement is refused at time `now_secs`; `None` when it is
/// accepted. An agreement must carry both signatures, must not have expired
/// (it expires at `expires_at` unless that is 0, and counts as expired once
/// `now_secs` is past it), and its worker and payer signatures must each be a
/// signature by the worker's and the payer's address over its EIP-712
/// signing hash. The checks are made in this order.
pub open spec fn rejection(agreement: WorkAgreement, now_secs: u64) -> Option<Refusal> {
    if agreement.payer_signature.is_none() {
        Some(Refusal::Invalid("Agreement missing payer signature"@))
    } else if agreement.worker_signature@.len() == 0 {
        Some(Refusal::Invalid("Agreement missing worker signature"@))
    } else if agreement.expires_at > 0 && now_secs > agreement.expires_at {
        Some(Refusal::Invalid("Agreement has expired"@))
    } else if !signed_by(agreement, agreement.worker_signature@, agreement.worker@) {
        Some(Refusal::BadSignature("worker signature does not match the worker address"@))
    } else if !signed_by(agreement, agreement.payer_signature.unwrap()@, agreement.payer@) {
        Some(Refusal::BadSignature("payer signature does not match the payer address"@))
    } else {
        None
    }
}

/// What validating `agreement` at `now_secs` gives: the agreement itself when
/// it is accepted, else the error of its refusal.
pub open spec fn validated_at(agreement: WorkAgreement, now_secs: u64, result: Result<WorkAgreement, TimeModuleError>) -> bool {
    match rejection(agreement, now_secs) {
        None => result == Ok::<WorkAgreement, TimeModuleError>(agreement),
        Some(Refusal::Invalid(msg)) => result matches Err(TimeModuleError::InvalidAgreement(m)) && m@ == msg,
        Some(Refusal::BadSignature(msg)) => result matches Err(TimeModuleError::SignatureError(m)) && m@ == msg,
    }
}

/// Validates a decoded agreement at unix time `now_secs`: it must have both
/// signatures, must not have expired, and both signatures must verify against
/// the worker's and the payer's addresses.
pub fn validate_agreement_at(agreement: WorkAgreement, now_secs: u64) -> (result: Result<WorkAgreement, TimeModuleError>)
    ensures
        validated_at(agreement, now_secs, result),
{
    if !agreement.is_countersigned() {
        if agreement.payer_signature.is_none() {
            return Err(TimeModuleError::InvalidAgreement(String::from_str("Agreement missing payer signature")));
        }
        return Err(TimeModuleError::InvalidAgreement(String::from_str("Agreement missing worker signature")));
    }
    if agreement.expires_at > 0 {
        if now_secs > agreement.expires_at {
            return Err(TimeModuleError::InvalidAgreement(String::from_str("Agreement has expired")));
        }
    }
    let digest = agreement_signing_hash(&agreement);
    if !is_signed_by(&digest, &agreement.worker_signature, &agreement.worker) {
        return Err(TimeModuleError::SignatureError(
            String::from_str("worker signature does not match the worker address"),
        ));
    }
    let payer_ok = match &agreement.payer_signature {
        Some(signature) => is_signed_by(&digest, signature, &agreement.payer),
        None => false,
    };
    if !payer_ok {
        return Err(TimeModuleError::SignatureError(
            String::from_str("payer signature does not match the payer address"),
        ));
    }
    Ok(agreement)
}

/// Validates a decoded agreement against the system clock. Whatever the clock
/// reads, the result is that of `validate_agreement_at` at some time.
pub fn validate_agreement(agreement: WorkAgreement) -> (result: Result<WorkAgreement, TimeModuleError>)
    ensures
        exists|now_secs: u64| validated_at(agreement, now_secs, result),
{
    let now_secs = unix_time_secs();
    let result = validate_agreement_at(agreement, now_secs);
    assert(validated_at(agreement, now_secs, result));
    result
}

/// The status counters after an agreement is forwarded to the mint trigger:
/// one more agreement is pending.
pub open spec fn after_forward(status: ModuleStatus) -> ModuleStatus {
    ModuleStatus { agreements_pending: (status.agreements_pending + 1) as usize, ..status }
}

/// Counts an agreement that is handed on to the mint trigger.
pub fn record_agreement_forwarded(status: &mut ModuleStatus)
    requires
        old(status).agreements_pending < usize::MAX,
    ensures
        *final(status) == after_forward(*old(status)),
{
    status.agreements_pending = status.agreements_pending + 1;
}

/// What the listener's run loop does when a connection ends: after a clean
/// disconnect it reconnects at once and the status is unchanged; after an
/// error it marks Waku as disconnected and waits `RECONNECT_DELAY_SECS`
/// before reconnecting. Returns the seconds to wait.
pub fn on_connection_ended(status: &mut ModuleStatus, clean: bool) -> (wait_secs: u64)
    ensures
        clean ==> wait_secs == 0 && *final(status) == *old(status),
        !clean ==> wait_secs == RECONNECT_DELAY_SECS
            && *final(status) == (ModuleStatus { waku_connected: false, ..*old(status) }),
{
    if clean {
        0
    } else {
        status.waku_connected = false;
        RECONNECT_DELAY_SECS
    }
}

/// An agreement is accepted at a time exactly when both parties have signed
/// it, it has no expiry or its expiry is not past, and the worker's and the
/// payer's signatures verify over its signing hash.
pub proof fn lemma_accepted_iff(agreement: WorkAgreement, now_secs: u64)
    ensures
        rejection(agreement, now_secs) is None <==> {
            &&& agreement.worker_signature@.len() > 0
            &&& agreement.payer_signature.is_some()
            &&& agreement.expires_at == 0 || now_secs <= agreement.expires_at
            &&& signed_by(agreement, agreement.worker_signature@, agreement.worker@)
            &&& signed_by(agreement, agreement.payer_signature.unwrap()@, agreement.payer@)
        },
{
}

/// Acceptance does not come back with time: an agreement accepted at some
/// time is accepted at every earlier time, and one without expiry is accepted
/// at every time or at none.
pub proof fn lemma_acceptance_monotone(agreement: WorkAgreement, earlier: u64, later: u64)
    requires
        earlier <= later,
    ensures
        rejection(agreement, later) is None ==> rejection(agreement, earlier) is None,
        agreement.expires_at == 0 ==> rejection(agreement, earlier) == rejection(agreement, later),
{
}

} // verus!
