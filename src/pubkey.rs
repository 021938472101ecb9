use vstd::prelude::*;

verus! {

#[verifier::external_type_specification]
#[verifier::external_body]
pub struct ExRegexError(regex::Error);

/// A compressed secp256k1 public key in hex: `02` or `03`, then 32 more bytes,
/// with digits of either case.
pub const PUBKEY_PATTERN: &'static str = "(?i)^0[2-3][0-9A-F]{64}$";

pub open spec fn is_hex_digit(c: char) -> bool {
    ('0' <= c && c <= '9') || ('a' <= c && c <= 'f') || ('A' <= c && c <= 'F')
}

/// `s` has the shape of a compressed public key: 66 hex digits, the first
/// byte `02` or `03`.
pub open spec fn is_compressed_pubkey(s: Seq<char>) -> bool {
    &&& s.len() == 66
    &&& s[0] == '0'
    &&& (s[1] == '2' || s[1] == '3')
    &&& forall|i: int| 2 <= i < 66 ==> is_hex_digit(#[trigger] s[i])
}

/// Relies on regex::Regex::new followed by Regex::is_match. The key pattern
/// compiles, and since `^` and `$` anchor the whole text and `(?i)` folds `A-F`
/// onto `a-f` only, it matches exactly the texts of `is_compressed_pubkey`.
#[verifier::external_body]
fn regex_is_match(pattern: &str, text: &str) -> (r: Result<bool, regex::Error>)
    requires
        pattern@ == PUBKEY_PATTERN@,
    ensures
        r is Ok,
        r->Ok_0 == is_compressed_pubkey(text@),
{
    regex::Regex::new(pattern).map(|re| re.is_match(text))
}

/// Whether `n` is a syntactically valid compressed public key. No check is
/// made that the key lies on the curve or belongs to a known node.
pub fn is_public_key(n: &str) -> (r: bool)
    ensures
        r == is_compressed_pubkey(n@),
{
    match regex_is_match(PUBKEY_PATTERN, n) {
        Ok(matched) => matched,
        Err(_) => false,
    }
}

} // verus!
