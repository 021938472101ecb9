use vstd::prelude::*;
use crate::outcome::ValidationError;
use crate::pubkey::{is_compressed_pubkey, is_public_key};
use crate::report::{decimal, decimal_text};

verus! {

/// How chrono writes the UTC time `secs` seconds after the Unix epoch.
pub uninterp spec fn utc_time_text(secs: int) -> Seq<char>;

/// How std's `Debug` writes a list of strings.
pub uninterp spec fn debug_list_text(items: Seq<Seq<char>>) -> Seq<char>;

/// Relies on chrono's `Utc.timestamp_opt` and the `Display` of the
/// `DateTime<Utc>` it returns. Every `u32` count of seconds lies well inside
/// chrono's range of years, so a single time always comes back.
#[verifier::external_body]
fn utc_time(secs: u32) -> (r: Option<String>)
    ensures
        r is Some,
        r->Some_0@ == utc_time_text(secs as int),
{
    match <chrono::Utc as chrono::TimeZone>::timestamp_opt(&chrono::Utc, i64::from(secs), 0) {
        chrono::LocalResult::Single(dt) => Some(dt.to_string()),
        chrono::LocalResult::Ambiguous(dt, _) => Some(dt.to_string()),
        chrono::LocalResult::None => None,
    }
}

/// Relies on std's `Debug` for a list of strings: each item quoted and
/// escaped, between brackets, separated by commas.
#[verifier::external_body]
fn debug_list(items: &Vec<String>) -> (r: String)
    ensures
        r@ == debug_list_text(items@.map_values(|s: String| s@)),
{
    format!("{:?}", items)
}

/// A feature a node announces: its name, and whether it is one the node
/// software knows.
#[derive(Debug, Clone, PartialEq, Eq)]
pub struct NodeFeature {
    pub name: String,
    pub is_known: bool,
}

/// The names of the known features, in their order.
pub open spec fn known_feature_names_spec(features: Seq<NodeFeature>) -> Seq<String>
    decreases features.len(),
{
    if features.len() == 0 {
        Seq::empty()
    } else {
        let rest = known_feature_names_spec(features.drop_last());
        if features.last().is_known {
            rest.push(features.last().name)
        } else {
            rest
        }
    }
}

/// Keeps the names of the features the node software knows.
pub fn known_feature_names(features: &Vec<NodeFeature>) -> (r: Vec<String>)
    ensures
        r@ == known_feature_names_spec(features@),
{
    let mut names: Vec<String> = Vec::new();
    let mut i: usize = 0;
    while i < features.len()
        invariant
            0 <= i <= features@.len(),
            names@ == known_feature_names_spec(features@.subrange(0, i as int)),
        decreases features@.len() - i,
    {
        assert(features@.subrange(0, i as int + 1).drop_last() =~= features@.subrange(0, i as int));
        if features[i].is_known {
            names.push(features[i].name.clone());
        }
        i = i + 1;
    }
    assert(features@.subrange(0, features@.len() as int) =~= features@);
    names
}

/// Checks the key of a node-info command: the query goes out only for a
/// well-formed key.
pub fn check_info_pubkey(pubkey: &str) -> (r: Result<(), ValidationError>)
    ensures
        r is Ok <==> is_compressed_pubkey(pubkey@),
        r is Err ==> r == Err::<(), ValidationError>(ValidationError::InvalidPublicKey),
{
    if is_public_key(pubkey) {
        Ok(())
    } else {
        Err(ValidationError::InvalidPublicKey)
    }
}

/// The node-info reply, from the node's last update time, key, alias, channel
/// count and the names of its known features.
pub open spec fn node_info_reply_spec(
    last_update: u32,
    pubkey: Seq<char>,
    alias: Seq<char>,
    num_channels: u32,
    known_features: Seq<String>,
) -> Seq<char> {
    "Last Update: "@ + utc_time_text(last_update as int) + "\n\nPubkey: "@ + pubkey + "\n\nAlias: "@ + alias
        + "\n\nNumber of Channels: "@ + decimal(num_channels as nat) + "\n\nSupported features: "@
        + debug_list_text(known_features.map_values(|s: String| s@))
}

/// Writes the node-info reply.
pub fn node_info_reply(
    last_update: u32,
    pubkey: &str,
    alias: &str,
    num_channels: u32,
    known_features: &Vec<String>,
) -> (r: String)
    ensures
        r@ == node_info_reply_spec(last_update, pubkey@, alias@, num_channels, known_features@),
{
    let time = utc_time(last_update);
    let time = match time {
        Some(t) => t,
        None => String::new(),
    };
    let channels = decimal_text(num_channels as u64);
    let features = debug_list(known_features);
    let mut s = String::from_str("Last Update: ");
    s.append(time.as_str());
    s.append("\n\nPubkey: ");
    s.append(pubkey);
    s.append("\n\nAlias: ");
    s.append(alias);
    s.append("\n\nNumber of Channels: ");
    s.append(channels.as_str());
    s.append("\n\nSupported features: ");
    s.append(features.as_str());
    s
}

} // verus!
