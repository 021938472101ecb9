use ln_utils_bot::address::AddressError;
use ln_utils_bot::connect::{ConnectAction, ConnectEvent, ConnectSession};
use ln_utils_bot::outcome::{OperationOutcome, ProbeFailure, ValidationError};
use ln_utils_bot::probe::{
    plan_probe, probe_outcome, ProbeAction, ProbeReport, DEFAULT_PROBE_TIMEOUT_SECONDS,
};

fn zero_key() -> String {
    format!("02{}", "0".repeat(64))
}

/// Runs a connect command against a stub node whose connect call answers with
/// `error`, recording every remote call made.
fn run_connect(addr: &str, elapsed_secs: u64, error: Option<&str>) -> (Vec<ConnectAction>, OperationOutcome) {
    let (mut session, mut action) = ConnectSession::start(addr);
    let mut calls = Vec::new();
    loop {
        let event = match &action {
            ConnectAction::Disconnect { .. } => ConnectEvent::Disconnected,
            ConnectAction::Connect { .. } => ConnectEvent::ConnectReturned {
                elapsed_secs,
                error: error.map(|e| e.to_string()),
            },
            ConnectAction::Finish { outcome } => return (calls, outcome.clone()),
        };
        calls.push(action.clone());
        action = session.step(event);
    }
}

fn count_disconnects(calls: &[ConnectAction]) -> usize {
    calls.iter().filter(|a| matches!(a, ConnectAction::Disconnect { .. })).count()
}

#[test]
fn connect_success_disconnects_before_and_after() {
    let key = zero_key();
    let (calls, outcome) = run_connect(&format!("{}@10.0.0.1:9735", key), 2, None);
    assert_eq!(outcome, OperationOutcome::ConnectSuccess { elapsed_secs: 2 });
    assert_eq!(
        calls,
        vec![
            ConnectAction::Disconnect { pubkey: key.clone() },
            ConnectAction::Connect { pubkey: key.clone(), host: "10.0.0.1:9735".to_string() },
            ConnectAction::Disconnect { pubkey: key.clone() },
        ]
    );
    assert_eq!(count_disconnects(&calls), 2);
}

#[test]
fn connect_failure_still_cleans_up() {
    let (calls, outcome) = run_connect("02ab@host:1", 7, Some("connection refused"));
    assert_eq!(
        outcome,
        OperationOutcome::ConnectFailure { elapsed_secs: 7, cause: "connection refused".to_string() }
    );
    assert_eq!(count_disconnects(&calls), 2);
    assert_eq!(calls.len(), 3);
}

#[test]
fn connect_malformed_address_makes_no_call() {
    for (addr, error) in [
        ("", AddressError::EmptyAddress),
        ("nokey", AddressError::MissingSeparator),
        ("@host", AddressError::MissingPubkey),
        ("key@", AddressError::MissingHost),
    ] {
        let (session, action) = ConnectSession::start(addr);
        assert!(session.is_done());
        let expected = OperationOutcome::ValidationError { cause: ValidationError::Address(error) };
        assert_eq!(action, ConnectAction::Finish { outcome: expected });
        let (calls, _) = run_connect(addr, 0, None);
        assert!(calls.is_empty());
    }
}

#[test]
fn connect_ignores_an_event_out_of_turn() {
    let (mut session, first) = ConnectSession::start("k@h");
    let again = session.step(ConnectEvent::ConnectReturned { elapsed_secs: 1, error: None });
    assert_eq!(again, first);
    assert_eq!(session.pending(), first);
}

#[test]
fn connect_done_stays_done() {
    let (mut session, _) = ConnectSession::start("k@h");
    session.step(ConnectEvent::Disconnected);
    session.step(ConnectEvent::ConnectReturned { elapsed_secs: 4, error: None });
    let done = session.step(ConnectEvent::Disconnected);
    let outcome = OperationOutcome::ConnectSuccess { elapsed_secs: 4 };
    assert_eq!(done, ConnectAction::Finish { outcome: outcome.clone() });
    assert!(session.is_done());
    assert_eq!(session.step(ConnectEvent::Disconnected), ConnectAction::Finish { outcome });
}

#[test]
fn two_connect_commands_interleaved_stay_independent() {
    let key_a = format!("02{}", "a".repeat(64));
    let key_b = format!("03{}", "b".repeat(64));
    let (mut a, act_a) = ConnectSession::start(&format!("{}@a.example:9735", key_a));
    let (mut b, act_b) = ConnectSession::start(&format!("{}@b.example:9735", key_b));
    assert_eq!(act_a, ConnectAction::Disconnect { pubkey: key_a.clone() });
    assert_eq!(act_b, ConnectAction::Disconnect { pubkey: key_b.clone() });
    a.step(ConnectEvent::Disconnected);
    b.step(ConnectEvent::Disconnected);
    assert_eq!(
        b.step(ConnectEvent::ConnectReturned { elapsed_secs: 9, error: None }),
        ConnectAction::Disconnect { pubkey: key_b.clone() }
    );
    assert_eq!(
        a.step(ConnectEvent::ConnectReturned { elapsed_secs: 1, error: None }),
        ConnectAction::Disconnect { pubkey: key_a.clone() }
    );
    assert_eq!(
        a.step(ConnectEvent::Disconnected),
        ConnectAction::Finish { outcome: OperationOutcome::ConnectSuccess { elapsed_secs: 1 } }
    );
    assert_eq!(
        b.step(ConnectEvent::Disconnected),
        ConnectAction::Finish { outcome: OperationOutcome::ConnectSuccess { elapsed_secs: 9 } }
    );
}

#[test]
fn probe_of_malformed_key_never_runs_engine() {
    let action = plan_probe("not-a-key", DEFAULT_PROBE_TIMEOUT_SECONDS);
    assert_eq!(
        action,
        ProbeAction::Finish {
            outcome: OperationOutcome::ValidationError { cause: ValidationError::InvalidPublicKey }
        }
    );
}

#[test]
fn probe_of_valid_key_uses_fixed_parameters() {
    let key = format!("03{}", "Ab".repeat(32));
    match plan_probe(&key, DEFAULT_PROBE_TIMEOUT_SECONDS) {
        ProbeAction::RunProbe { request } => {
            assert_eq!(request.destination_pubkey, key);
            assert_eq!(request.fee_limit_sat, 100);
            assert_eq!(request.probe_amount_sat, 1);
            assert_eq!(request.max_paths, 1);
            assert_eq!(request.timeout_seconds, 20);
        }
        other => panic!("unexpected {:?}", other),
    }
    match plan_probe(&key, 60) {
        ProbeAction::RunProbe { request } => assert_eq!(request.timeout_seconds, 60),
        other => panic!("unexpected {:?}", other),
    }
}

#[test]
fn probe_without_route_reports_reason() {
    let outcome = probe_outcome(
        3,
        ProbeReport::Completed { is_success: false, failure_reason: "NoRoute".to_string() },
    );
    assert_eq!(
        outcome,
        OperationOutcome::ProbeFailure { elapsed_secs: 3, failure: ProbeFailure::Reason("NoRoute".to_string()) }
    );
}

#[test]
fn probe_success_and_engine_error() {
    assert_eq!(
        probe_outcome(5, ProbeReport::Completed { is_success: true, failure_reason: String::new() }),
        OperationOutcome::ProbeSuccess { elapsed_secs: 5 }
    );
    assert_eq!(
        probe_outcome(0, ProbeReport::EngineError { error: "timeout".to_string() }),
        OperationOutcome::ProbeFailure {
            elapsed_secs: 0,
            failure: ProbeFailure::EngineError("timeout".to_string())
        }
    );
}
