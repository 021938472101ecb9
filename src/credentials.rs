use vstd::prelude::*;

verus! {

/// Where a node credential is to be read from.
#[derive(Debug, Clone, PartialEq, Eq)]
pub enum CredentialSource {
    /// A file whose bytes, hex-encoded, are the credential.
    File { path: String },
    /// The credential itself, already in hex.
    Hex { value: String },
}

/// A setting needed to reach the node that was not supplied.
#[derive(Debug, Clone, Copy, PartialEq, Eq, Structural)]
pub enum ConfigError {
    MissingCert,
    MissingMacaroon,
    MissingSocket,
}

impl ConfigError {
    /// The text reported when this setting is missing.
    pub fn message(&self) -> (r: &'static str)
        ensures
            r@ == self.message_spec(),
    {
        match self {
            ConfigError::MissingCert => "ExpectedEitherTlsCertPathOrTlsCertHexToAuthenticateToLnd",
            ConfigError::MissingMacaroon => "ExpectedEitherMacaroonPathOrMacaroonHexToAuthenticateToLnd",
            ConfigError::MissingSocket => "ExpectedSocketToAuthenticateToLnd",
        }
    }

    pub open spec fn message_spec(&self) -> Seq<char> {
        match self {
            ConfigError::MissingCert => "ExpectedEitherTlsCertPathOrTlsCertHexToAuthenticateToLnd"@,
            ConfigError::MissingMacaroon => "ExpectedEitherMacaroonPathOrMacaroonHexToAuthenticateToLnd"@,
            ConfigError::MissingSocket => "ExpectedSocketToAuthenticateToLnd"@,
        }
    }
}

/// A credential source seen as (read from a file?, the path or the hex text).
pub open spec fn source_view(r: Result<CredentialSource, ConfigError>) -> Result<(bool, Seq<char>), ConfigError> {
    match r {
        Ok(CredentialSource::File { path }) => Ok((true, path@)),
        Ok(CredentialSource::Hex { value }) => Ok((false, value@)),
        Err(e) => Err(e),
    }
}

/// The source chosen from a hex setting and a path setting, an unset setting
/// being empty: the path wins when both are given.
pub open spec fn choose_source_spec(hex_value: Seq<char>, path: Seq<char>, missing: ConfigError) -> Result<(bool, Seq<char>), ConfigError> {
    if path.len() != 0 {
        Ok((true, path))
    } else if hex_value.len() != 0 {
        Ok((false, hex_value))
    } else {
        Err(missing)
    }
}

/// Picks where a credential comes from: the file at `path` if one is named,
/// else the hex text `hex_value`; `missing` when neither is given.
pub fn get_from_env_or_file(hex_value: &str, path: &str, missing: ConfigError) -> (r: Result<CredentialSource, ConfigError>)
    ensures
        source_view(r) == choose_source_spec(hex_value@, path@, missing),
{
    if path.unicode_len() == 0 && hex_value.unicode_len() == 0 {
        return Err(missing);
    }
    if path.unicode_len() != 0 {
        Ok(CredentialSource::File { path: String::from_str(path) })
    } else {
        Ok(CredentialSource::Hex { value: String::from_str(hex_value) })
    }
}

/// The TLS certificate's source, from `CERT_HEX` and `CERT_PATH`.
pub fn get_cert(cert_hex: &str, cert_path: &str) -> (r: Result<CredentialSource, ConfigError>)
    ensures
        source_view(r) == choose_source_spec(cert_hex@, cert_path@, ConfigError::MissingCert),
{
    get_from_env_or_file(cert_hex, cert_path, ConfigError::MissingCert)
}

/// The macaroon's source, from `MACAROON_HEX` and `MACAROON_PATH`.
pub fn get_macaroon(macaroon_hex: &str, macaroon_path: &str) -> (r: Result<CredentialSource, ConfigError>)
    ensures
        source_view(r) == choose_source_spec(macaroon_hex@, macaroon_path@, ConfigError::MissingMacaroon),
{
    get_from_env_or_file(macaroon_hex, macaroon_path, ConfigError::MissingMacaroon)
}

/// The node's RPC address, from `SOCKET`, which must be set.
pub fn get_socket(socket: Option<String>) -> (r: Result<String, ConfigError>)
    ensures
        match socket {
            Some(s) => r is Ok && r->Ok_0@ == s@,
            None => r == Err::<String, ConfigError>(ConfigError::MissingSocket),
        },
{
    match socket {
        Some(s) => Ok(s),
        None => Err(ConfigError::MissingSocket),
    }
}

pub open spec fn lower_hex_digit(n: int) -> char {
    seq!['0', '1', '2', '3', '4', '5', '6', '7', '8', '9', 'a', 'b', 'c', 'd', 'e', 'f'][n]
}

/// Bytes in lowercase hex, two digits per byte, the high half first.
pub open spec fn hex_encoding(b: Seq<u8>) -> Seq<char> {
    Seq::new(
        2 * b.len(),
        |i: int|
            if i % 2 == 0 {
                lower_hex_digit(b[i / 2] as int / 16)
            } else {
                lower_hex_digit(b[i / 2] as int % 16)
            },
    )
}

/// Relies on hex::encode: each byte becomes two digits of `0123456789abcdef`,
/// the high half first.
#[verifier::external_body]
fn hex_encode(bytes: &Vec<u8>) -> (r: String)
    ensures
        r@ == hex_encoding(bytes@),
{
    hex::encode(bytes)
}

/// The credential held in a file: its bytes in lowercase hex.
pub fn credential_from_file(bytes: &Vec<u8>) -> (r: String)
    ensures
        r@ == hex_encoding(bytes@),
{
    hex_encode(bytes)
}

} // verus!
