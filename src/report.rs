use vstd::prelude::*;
use crate::outcome::{OperationOutcome, ProbeFailure, ValidationError};

verus! {

pub const WELCOME_MESSAGE: &'static str = "Welcome to LN Utils Bot! 🙏";

pub const PROBE_WAIT_MESSAGE: &'static str = "Attempting to probe peer! ⏳";
pub const PROBE_SUCCESS_MESSAGE: &'static str = "Probe successful! ✅ in ";
pub const PROBE_FAILURE_MESSAGE: &'static str = "Probe failed! 😕 ";

pub const PEER_CONNECT_WAIT_MESSAGE: &'static str = "Attempting to connect to peer! ⏳";
pub const PEER_CONNECT_SUCCESS_MESSAGE: &'static str = "Connected to node! 👍 in";
pub const PEER_CONNECT_FAILURE_MESSAGE: &'static str = "Failed to connect to node! ❌ ";

pub const INFO_COMMAND_WAIT_MESSAGE: &'static str = "Attempting to get node info! ⏳";
pub const INFO_COMMAND_FAILURE_MESSAGE: &'static str = "Failed to get node info! ❌ ";

/// What a probe of a malformed key reports.
pub const INVALID_PUBKEY_MESSAGE: &'static str = "ExpectedValidHexPublicKey";

pub open spec fn digit_char(d: nat) -> char {
    seq!['0', '1', '2', '3', '4', '5', '6', '7', '8', '9'][d as int]
}

/// `n` in decimal, without leading zeros.
pub open spec fn decimal(n: nat) -> Seq<char>
    decreases n,
{
    if n < 10 {
        seq![digit_char(n)]
    } else {
        decimal(n / 10) + seq![digit_char(n % 10)]
    }
}

fn digit_text(d: u64) -> (r: &'static str)
    requires
        d < 10,
    ensures
        r@ == seq![digit_char(d as nat)],
{
    proof {
        reveal_strlit("0");
        reveal_strlit("1");
        reveal_strlit("2");
        reveal_strlit("3");
        reveal_strlit("4");
        reveal_strlit("5");
        reveal_strlit("6");
        reveal_strlit("7");
        reveal_strlit("8");
        reveal_strlit("9");
    }
    let r = if d == 0 {
        "0"
    } else if d == 1 {
        "1"
    } else if d == 2 {
        "2"
    } else if d == 3 {
        "3"
    } else if d == 4 {
        "4"
    } else if d == 5 {
        "5"
    } else if d == 6 {
        "6"
    } else if d == 7 {
        "7"
    } else if d == 8 {
        "8"
    } else {
        "9"
    };
    assert(r@ =~= seq![digit_char(d as nat)]);
    r
}

/// `n` written in decimal.
pub fn decimal_text(n: u64) -> (r: String)
    ensures
        r@ == decimal(n as nat),
    decreases n,
{
    if n < 10 {
        String::from_str(digit_text(n))
    } else {
        let mut s = decimal_text(n / 10);
        s.append(digit_text(n % 10));
        s
    }
}

/// The text of an outcome, as the operator reads it.
pub open spec fn render_spec(outcome: OperationOutcome) -> Seq<char> {
    match outcome {
        OperationOutcome::ConnectSuccess { elapsed_secs } =>
            PEER_CONNECT_SUCCESS_MESSAGE@ + " "@ + decimal(elapsed_secs as nat) + " seconds"@,
        OperationOutcome::ConnectFailure { cause, .. } =>
            PEER_CONNECT_FAILURE_MESSAGE@ + " "@ + cause@,
        OperationOutcome::ProbeSuccess { elapsed_secs } =>
            PROBE_SUCCESS_MESSAGE@ + " "@ + decimal(elapsed_secs as nat) + " seconds"@,
        OperationOutcome::ProbeFailure { failure: ProbeFailure::Reason(reason), .. } =>
            PROBE_FAILURE_MESSAGE@ + " "@ + reason@,
        OperationOutcome::ProbeFailure { failure: ProbeFailure::EngineError(error), .. } =>
            PROBE_FAILURE_MESSAGE@ + ": "@ + error@,
        OperationOutcome::ValidationError { cause: ValidationError::Address(e) } =>
            PEER_CONNECT_FAILURE_MESSAGE@ + " "@ + e.message_spec(),
        OperationOutcome::ValidationError { cause: ValidationError::InvalidPublicKey } =>
            PROBE_FAILURE_MESSAGE@ + ": "@ + INVALID_PUBKEY_MESSAGE@,
    }
}

/// Joins three texts.
fn join3(a: &str, b: &str, c: &str) -> (r: String)
    ensures
        r@ == a@ + b@ + c@,
{
    let mut s = String::from_str(a);
    s.append(b);
    s.append(c);
    s
}

/// Renders an outcome: one template for each of connect success, connect
/// failure, probe success and probe failure, a refused argument being reported
/// as the failure of its command.
pub fn render(outcome: &OperationOutcome) -> (r: String)
    ensures
        r@ == render_spec(*outcome),
{
    match outcome {
        OperationOutcome::ConnectSuccess { elapsed_secs } => {
            let secs = decimal_text(*elapsed_secs);
            let mut s = join3(PEER_CONNECT_SUCCESS_MESSAGE, " ", secs.as_str());
            s.append(" seconds");
            s
        },
        OperationOutcome::ConnectFailure { cause, .. } => {
            join3(PEER_CONNECT_FAILURE_MESSAGE, " ", cause.as_str())
        },
        OperationOutcome::ProbeSuccess { elapsed_secs } => {
            let secs = decimal_text(*elapsed_secs);
            let mut s = join3(PROBE_SUCCESS_MESSAGE, " ", secs.as_str());
            s.append(" seconds");
            s
        },
        OperationOutcome::ProbeFailure { failure, .. } => match failure {
            ProbeFailure::Reason(reason) => join3(PROBE_FAILURE_MESSAGE, " ", reason.as_str()),
            ProbeFailure::EngineError(error) => join3(PROBE_FAILURE_MESSAGE, ": ", error.as_str()),
        },
        OperationOutcome::ValidationError { cause } => match cause {
            ValidationError::Address(e) => join3(PEER_CONNECT_FAILURE_MESSAGE, " ", e.message()),
            ValidationError::InvalidPublicKey => join3(PROBE_FAILURE_MESSAGE, ": ", INVALID_PUBKEY_MESSAGE),
        },
    }
}

} // verus!
