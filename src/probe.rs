use vstd::prelude::*;
use crate::outcome::{OperationOutcome, ProbeFailure, ValidationError};
use crate::pubkey::{is_compressed_pubkey, is_public_key};

verus! {

/// The probe timeout used unless the deployment sets another.
pub const DEFAULT_PROBE_TIMEOUT_SECONDS: i32 = 20;
/// Highest routing fee a probe may pay, in satoshis.
pub const PROBE_FEE_LIMIT_SAT: i64 = 100;
/// Amount a probe tries to route, in satoshis.
pub const PROBE_AMOUNT_SAT: i64 = 1;
/// Paths a probe tries at once.
pub const PROBE_MAX_PATHS: u32 = 1;

/// The parameters handed to the probing engine. No payment request and no
/// restriction on the last hop or the outgoing channels go with them.
#[derive(Debug, Clone, PartialEq, Eq)]
pub struct ProbeRequest {
    pub destination_pubkey: String,
    pub fee_limit_sat: i64,
    pub probe_amount_sat: i64,
    pub max_paths: u32,
    pub timeout_seconds: i32,
}

/// What a probe command asks of its caller.
#[derive(Debug, Clone, PartialEq, Eq)]
pub enum ProbeAction {
    /// Run the probing engine with this request, timing the call, then hand
    /// what it returned to `probe_outcome`.
    RunProbe { request: ProbeRequest },
    /// Nothing to run: the command ended with this outcome.
    Finish { outcome: OperationOutcome },
}

/// What the probing engine returned.
#[derive(Debug, Clone, PartialEq, Eq)]
pub enum ProbeReport {
    /// The engine ran; on failure, the reason it gave.
    Completed { is_success: bool, failure_reason: String },
    /// The engine call failed with this error.
    EngineError { error: String },
}

/// `r` is the request for probing `pubkey` with the fixed parameters.
pub open spec fn is_probe_request_for(r: ProbeRequest, pubkey: Seq<char>, timeout_seconds: i32) -> bool {
    &&& r.destination_pubkey@ == pubkey
    &&& r.fee_limit_sat == PROBE_FEE_LIMIT_SAT
    &&& r.probe_amount_sat == PROBE_AMOUNT_SAT
    &&& r.max_paths == PROBE_MAX_PATHS
    &&& r.timeout_seconds == timeout_seconds
}

/// Starts a probe command. A malformed key ends it at once and the engine is
/// never asked; otherwise the engine is to run once, with the fixed
/// parameters and the given timeout.
pub fn plan_probe(pubkey: &str, timeout_seconds: i32) -> (r: ProbeAction)
    ensures
        is_compressed_pubkey(pubkey@) ==> r is RunProbe && is_probe_request_for(
            r->RunProbe_request,
            pubkey@,
            timeout_seconds,
        ),
        !is_compressed_pubkey(pubkey@) ==> r == (ProbeAction::Finish {
            outcome: OperationOutcome::ValidationError { cause: ValidationError::InvalidPublicKey },
        }),
{
    if !is_public_key(pubkey) {
        return ProbeAction::Finish {
            outcome: OperationOutcome::ValidationError { cause: ValidationError::InvalidPublicKey },
        };
    }
    ProbeAction::RunProbe {
        request: ProbeRequest {
            destination_pubkey: String::from_str(pubkey),
            fee_limit_sat: PROBE_FEE_LIMIT_SAT,
            probe_amount_sat: PROBE_AMOUNT_SAT,
            max_paths: PROBE_MAX_PATHS,
            timeout_seconds,
        },
    }
}

/// The outcome of a probe whose engine call took `elapsed_secs`.
pub open spec fn probe_outcome_spec(elapsed_secs: u64, report: ProbeReport) -> OperationOutcome {
    match report {
        ProbeReport::Completed { is_success, failure_reason } => if is_success {
            OperationOutcome::ProbeSuccess { elapsed_secs }
        } else {
            OperationOutcome::ProbeFailure { elapsed_secs, failure: ProbeFailure::Reason(failure_reason) }
        },
        ProbeReport::EngineError { error } => OperationOutcome::ProbeFailure {
            elapsed_secs,
            failure: ProbeFailure::EngineError(error),
        },
    }
}

/// Classifies what the engine returned: success, a failure with the engine's
/// reason, or a failure with the engine call's error.
pub fn probe_outcome(elapsed_secs: u64, report: ProbeReport) -> (r: OperationOutcome)
    ensures
        r == probe_outcome_spec(elapsed_secs, report),
{
    match report {
        ProbeReport::Completed { is_success, failure_reason } => if is_success {
            OperationOutcome::ProbeSuccess { elapsed_secs }
        } else {
            OperationOutcome::ProbeFailure { elapsed_secs, failure: ProbeFailure::Reason(failure_reason) }
        },
        ProbeReport::EngineError { error } => OperationOutcome::ProbeFailure {
            elapsed_secs,
            failure: ProbeFailure::EngineError(error),
        },
    }
}

} // verus!
