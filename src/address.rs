use vstd::prelude::*;

verus! {

/// A peer named as `pubkey@host`, split at the first `@`.
#[derive(Debug, Clone, PartialEq, Eq)]
pub struct PeerIdentifier {
    pub pubkey: String,
    pub host: String,
}

impl PeerIdentifier {
    /// Both parts are present.
    pub open spec fn wf(&self) -> bool {
        self.pubkey@.len() > 0 && self.host@.len() > 0
    }
}

/// Why a `pubkey@host` string was refused.
#[derive(Debug, Clone, Copy, PartialEq, Eq, Structural)]
pub enum AddressError {
    /// The address is the empty string.
    EmptyAddress,
    /// The address holds no `@`.
    MissingSeparator,
    /// Nothing stands before the first `@`.
    MissingPubkey,
    /// Nothing stands after the first `@`.
    MissingHost,
}

impl AddressError {
    /// The text shown to the operator for this error.
    pub fn message(&self) -> (r: &'static str)
        ensures
            r@ == self.message_spec(),
    {
        match self {
            AddressError::EmptyAddress => "Address cannot be empty",
            AddressError::MissingSeparator => "Missing pubkey/uri",
            AddressError::MissingPubkey => "Missing pubkey",
            AddressError::MissingHost => "Missing socket",
        }
    }

    pub open spec fn message_spec(&self) -> Seq<char> {
        match self {
            AddressError::EmptyAddress => "Address cannot be empty"@,
            AddressError::MissingSeparator => "Missing pubkey/uri"@,
            AddressError::MissingPubkey => "Missing pubkey"@,
            AddressError::MissingHost => "Missing socket"@,
        }
    }
}

/// `i` is the position of the first `@` of `s`.
pub open spec fn is_first_separator(s: Seq<char>, i: int) -> bool {
    &&& 0 <= i < s.len()
    &&& s[i] == '@'
    &&& forall|j: int| 0 <= j < i ==> s[j] != '@'
}

pub open spec fn has_separator(s: Seq<char>) -> bool {
    exists|i: int| 0 <= i < s.len() && s[i] == '@'
}

/// What parsing `s` yields, given the position `i` of its first `@`.
pub open spec fn split_at_separator(s: Seq<char>, i: int) -> Result<(Seq<char>, Seq<char>), AddressError> {
    if i == 0 {
        Err(AddressError::MissingPubkey)
    } else if i == s.len() - 1 {
        Err(AddressError::MissingHost)
    } else {
        Ok((s.subrange(0, i), s.subrange(i + 1, s.len() as int)))
    }
}

/// The meaning of parsing `s`: the key before the first `@`, the host after it.
pub open spec fn parse_address_spec(s: Seq<char>) -> Result<(Seq<char>, Seq<char>), AddressError> {
    if s.len() == 0 {
        Err(AddressError::EmptyAddress)
    } else if !has_separator(s) {
        Err(AddressError::MissingSeparator)
    } else {
        split_at_separator(s, choose|i: int| is_first_separator(s, i))
    }
}

/// Views a parse result as sequences of characters.
pub open spec fn peer_view(r: Result<PeerIdentifier, AddressError>) -> Result<(Seq<char>, Seq<char>), AddressError> {
    match r {
        Ok(p) => Ok((p.pubkey@, p.host@)),
        Err(e) => Err(e),
    }
}

/// The first `@` of a string that holds one is unique.
proof fn lemma_first_separator_unique(s: Seq<char>, i: int, k: int)
    requires
        is_first_separator(s, i),
        is_first_separator(s, k),
    ensures
        i == k,
{
    if i < k {
        assert(s[i] != '@');
    } else if k < i {
        assert(s[k] != '@');
    }
}

/// Splits `addr` at its first `@` into a public key and a host. Any further `@`
/// belongs to the host; neither part is checked further.
pub fn parse_address(addr: &str) -> (r: Result<PeerIdentifier, AddressError>)
    ensures
        peer_view(r) == parse_address_spec(addr@),
        r is Ok ==> r->Ok_0.wf(),
{
    let n = addr.unicode_len();
    if n == 0 {
        return Err(AddressError::EmptyAddress);
    }
    let mut i: usize = 0;
    while i < n && addr.get_char(i) != '@'
        invariant
            n == addr@.len(),
            0 <= i <= n,
            forall|j: int| 0 <= j < i ==> addr@[j] != '@',
        decreases n - i,
    {
        i = i + 1;
    }
    if i == n {
        assert(!has_separator(addr@));
        return Err(AddressError::MissingSeparator);
    }
    proof {
        let s = addr@;
        assert(is_first_separator(s, i as int));
        assert(has_separator(s));
        let c = choose|k: int| is_first_separator(s, k);
        lemma_first_separator_unique(s, i as int, c);
    }
    if i == 0 {
        return Err(AddressError::MissingPubkey);
    }
    if i + 1 == n {
        return Err(AddressError::MissingHost);
    }
    let pubkey = String::from_str(addr.substring_char(0, i));
    let host = String::from_str(addr.substring_char(i + 1, n));
    Ok(PeerIdentifier { pubkey, host })
}

/// An address with text on both sides of its first `@` parses into the text
/// before that `@` and all the text after it.
pub proof fn lemma_parse_well_formed(s: Seq<char>, i: int)
    requires
        is_first_separator(s, i),
        0 < i < s.len() - 1,
    ensures
        parse_address_spec(s) == Ok::<(Seq<char>, Seq<char>), AddressError>((s.subrange(0, i), s.subrange(i + 1, s.len() as int))),
{
    assert(has_separator(s));
    let c = choose|k: int| is_first_separator(s, k);
    lemma_first_separator_unique(s, i, c);
}

/// An address that is empty, holds no `@`, or has nothing on one side of its
/// first `@` is refused.
pub proof fn lemma_parse_malformed(s: Seq<char>)
    requires
        s.len() == 0 || !has_separator(s) || is_first_separator(s, 0) || is_first_separator(s, s.len() - 1),
    ensures
        parse_address_spec(s) is Err,
{
    if s.len() != 0 && has_separator(s) {
        let c = choose|k: int| is_first_separator(s, k);
        if is_first_separator(s, 0) {
            lemma_first_separator_unique(s, 0, c);
        } else {
            lemma_first_separator_unique(s, s.len() - 1, c);
        }
    }
}

} // verus!
