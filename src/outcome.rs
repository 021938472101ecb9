use vstd::prelude::*;
use crate::address::AddressError;

verus! {

/// Why a command's argument was refused before any remote call was made.
#[derive(Debug, Clone, Copy, PartialEq, Eq, Structural)]
pub enum ValidationError {
    /// The `pubkey@host` argument of a connect command is malformed.
    Address(AddressError),
    /// The argument of a probe command is not a compressed public key.
    InvalidPublicKey,
}

/// How a probe that ran came to fail.
#[derive(Debug, Clone, PartialEq, Eq)]
pub enum ProbeFailure {
    /// The engine ran and found no working route; the reason it gave.
    Reason(String),
    /// The engine call itself failed; its error.
    EngineError(String),
}

/// The result of one connect or probe command.
#[derive(Debug, Clone, PartialEq, Eq)]
pub enum OperationOutcome {
    ConnectSuccess { elapsed_secs: u64 },
    ConnectFailure { elapsed_secs: u64, cause: String },
    ProbeSuccess { elapsed_secs: u64 },
    ProbeFailure { elapsed_secs: u64, failure: ProbeFailure },
    ValidationError { cause: ValidationError },
}

impl ProbeFailure {
    /// A copy of this failure.
    pub fn copy(&self) -> (r: ProbeFailure)
        ensures
            r == *self,
    {
        match self {
            ProbeFailure::Reason(reason) => ProbeFailure::Reason(reason.clone()),
            ProbeFailure::EngineError(error) => ProbeFailure::EngineError(error.clone()),
        }
    }
}

impl OperationOutcome {
    /// A copy of this outcome.
    pub fn copy(&self) -> (r: OperationOutcome)
        ensures
            r == *self,
    {
        match self {
            OperationOutcome::ConnectSuccess { elapsed_secs } => OperationOutcome::ConnectSuccess { elapsed_secs: *elapsed_secs },
            OperationOutcome::ConnectFailure { elapsed_secs, cause } => OperationOutcome::ConnectFailure {
                elapsed_secs: *elapsed_secs,
                cause: cause.clone(),
            },
            OperationOutcome::ProbeSuccess { elapsed_secs } => OperationOutcome::ProbeSuccess { elapsed_secs: *elapsed_secs },
            OperationOutcome::ProbeFailure { elapsed_secs, failure } => OperationOutcome::ProbeFailure {
                elapsed_secs: *elapsed_secs,
                failure: failure.copy(),
            },
            OperationOutcome::ValidationError { cause } => OperationOutcome::ValidationError { cause: *cause },
        }
    }
}

} // verus!
