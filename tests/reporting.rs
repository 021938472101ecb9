use ln_utils_bot::address::AddressError;
use ln_utils_bot::credentials::{
    credential_from_file, get_cert, get_from_env_or_file, get_macaroon, get_socket, ConfigError,
    CredentialSource,
};
use ln_utils_bot::info::{check_info_pubkey, known_feature_names, node_info_reply, NodeFeature};
use ln_utils_bot::outcome::{OperationOutcome, ProbeFailure, ValidationError};
use ln_utils_bot::report::{decimal_text, render};

#[test]
fn decimal_text_values() {
    assert_eq!(decimal_text(0), "0");
    assert_eq!(decimal_text(7), "7");
    assert_eq!(decimal_text(10), "10");
    assert_eq!(decimal_text(1234567890), "1234567890");
    assert_eq!(decimal_text(u64::MAX), "18446744073709551615");
}

#[test]
fn render_connect_outcomes() {
    assert_eq!(
        render(&OperationOutcome::ConnectSuccess { elapsed_secs: 3 }),
        "Connected to node! 👍 in 3 seconds"
    );
    assert_eq!(
        render(&OperationOutcome::ConnectFailure { elapsed_secs: 1, cause: "refused".to_string() }),
        "Failed to connect to node! ❌  refused"
    );
    assert_eq!(
        render(&OperationOutcome::ValidationError {
            cause: ValidationError::Address(AddressError::EmptyAddress)
        }),
        "Failed to connect to node! ❌  Address cannot be empty"
    );
}

#[test]
fn render_probe_outcomes() {
    assert_eq!(
        render(&OperationOutcome::ProbeSuccess { elapsed_secs: 12 }),
        "Probe successful! ✅ in  12 seconds"
    );
    assert_eq!(
        render(&OperationOutcome::ProbeFailure {
            elapsed_secs: 2,
            failure: ProbeFailure::Reason("FailureReasonNoRoute".to_string())
        }),
        "Probe failed! 😕  FailureReasonNoRoute"
    );
    assert_eq!(
        render(&OperationOutcome::ProbeFailure {
            elapsed_secs: 2,
            failure: ProbeFailure::EngineError("boom".to_string())
        }),
        "Probe failed! 😕 : boom"
    );
    assert_eq!(
        render(&OperationOutcome::ValidationError { cause: ValidationError::InvalidPublicKey }),
        "Probe failed! 😕 : ExpectedValidHexPublicKey"
    );
}

#[test]
fn credential_path_wins_over_hex() {
    assert_eq!(
        get_cert("abcd", "/etc/tls.cert"),
        Ok(CredentialSource::File { path: "/etc/tls.cert".to_string() })
    );
    assert_eq!(get_macaroon("abcd", ""), Ok(CredentialSource::Hex { value: "abcd".to_string() }));
}

#[test]
fn credential_missing_is_an_error() {
    assert_eq!(get_cert("", ""), Err(ConfigError::MissingCert));
    assert_eq!(get_macaroon("", ""), Err(ConfigError::MissingMacaroon));
    assert_eq!(
        get_from_env_or_file("", "", ConfigError::MissingSocket),
        Err(ConfigError::MissingSocket)
    );
    assert_eq!(
        ConfigError::MissingCert.message(),
        "ExpectedEitherTlsCertPathOrTlsCertHexToAuthenticateToLnd"
    );
}

#[test]
fn socket_must_be_set() {
    assert_eq!(get_socket(Some("127.0.0.1:10009".to_string())), Ok("127.0.0.1:10009".to_string()));
    assert_eq!(get_socket(None), Err(ConfigError::MissingSocket));
}

#[test]
fn credential_file_is_hex_encoded() {
    assert_eq!(credential_from_file(&vec![0x00, 0x0f, 0xab, 0xff]), "000fabff");
    assert_eq!(credential_from_file(&vec![]), "");
}

#[test]
fn known_features_are_kept_in_order() {
    let features = vec![
        NodeFeature { name: "data-loss-protect".to_string(), is_known: true },
        NodeFeature { name: "unknown".to_string(), is_known: false },
        NodeFeature { name: "tlv-onion".to_string(), is_known: true },
    ];
    assert_eq!(
        known_feature_names(&features),
        vec!["data-loss-protect".to_string(), "tlv-onion".to_string()]
    );
    assert!(known_feature_names(&vec![]).is_empty());
}

#[test]
fn info_key_is_checked() {
    assert_eq!(check_info_pubkey("xyz"), Err(ValidationError::InvalidPublicKey));
    assert_eq!(check_info_pubkey(&format!("02{}", "c".repeat(64))), Ok(()));
}

#[test]
fn node_info_reply_text() {
    let reply = node_info_reply(
        1431648000,
        "02aa",
        "alice",
        42,
        &vec!["tlv-onion".to_string(), "wumbo".to_string()],
    );
    assert_eq!(
        reply,
        "Last Update: 2015-05-15 00:00:00 UTC\n\nPubkey: 02aa\n\nAlias: alice\n\nNumber of Channels: 42\n\nSupported features: [\"tlv-onion\", \"wumbo\"]"
    );
}
