//! Conversions at the boundary with sandboxed routers: tool schemas carried
//! as key and data, and timestamps carried as RFC 3339 text.
use vstd::prelude::*;
use crate::rpc::{json_quoted, quote_json};

verus! {

/// An instant in UTC: seconds since the Unix epoch and the nanoseconds
/// within that second.
#[derive(PartialEq, Eq, Structural, Debug, Clone, Copy)]
pub struct UtcInstant {
    pub secs: i64,
    pub nanos: u32,
}

/// The UTC instant that RFC 3339 text denotes, as seconds and nanoseconds,
/// or `None` where the text is not RFC 3339.
pub uninterp spec fn rfc3339_instant(s: Seq<char>) -> Option<(i64, u32)>;

/// Relies on `chrono::DateTime::parse_from_rfc3339`, then
/// `with_timezone(&Utc)`, `timestamp` and `timestamp_subsec_nanos`: the
/// instant that the text denotes, or `None` where it does not parse.
#[verifier::external_body]
fn parse_rfc3339(s: &str) -> (r: Option<(i64, u32)>)
    ensures
        r == rfc3339_instant(s@),
{
    match chrono::DateTime::parse_from_rfc3339(s) {
        Ok(dt) => {
            let utc = dt.with_timezone(&chrono::Utc);
            Some((utc.timestamp(), utc.timestamp_subsec_nanos()))
        },
        Err(_) => None,
    }
}

/// The instant that optional RFC 3339 text denotes: absent when the text is
/// absent or does not parse.
pub fn string_to_datetime(date_str: Option<String>) -> (r: Option<UtcInstant>)
    ensures
        match date_str {
            None => r is None,
            Some(s) => match rfc3339_instant(s@) {
                None => r is None,
                Some((secs, nanos)) => r == Some(UtcInstant { secs, nanos }),
            },
        },
{
    match date_str {
        None => None,
        Some(s) => match parse_rfc3339(s.as_str()) {
            None => None,
            Some((secs, nanos)) => Some(UtcInstant { secs, nanos }),
        },
    }
}

/// Whether `s` is JSON text.
pub uninterp spec fn json_parses(s: Seq<char>) -> bool;

/// Relies on `serde_json::from_str::<serde_json::Value>`: whether the text
/// parses as JSON.
#[verifier::external_body]
fn is_json(s: &str) -> (r: bool)
    ensures
        r == json_parses(s@),
{
    serde_json::from_str::<serde_json::Value>(s).is_ok()
}

/// A schema entry as a sandboxed router carries it: a key and its value as
/// text.
pub struct KeyValue {
    pub key: String,
    pub data: String,
}

/// `{<quoted key>:<value>}`: a JSON object of one member.
pub open spec fn object_text(quoted_key: Seq<char>, value: Seq<char>) -> Seq<char> {
    seq!['{'] + quoted_key + seq![':'] + value + seq!['}']
}

/// The JSON object `{key: value}` for a schema entry, given the key as a
/// JSON string literal, the data, whether the data is JSON text, and the
/// data as a JSON string literal. Data that is JSON stands as it is; other
/// data stands as a string.
pub fn schema_object(quoted_key: &str, data: &str, data_is_json: bool, quoted_data: &str) -> (r:
    String)
    ensures
        r@ == object_text(
            quoted_key@,
            if data_is_json {
                data@
            } else {
                quoted_data@
            },
        ),
{
    let mut r = String::from_str("{");
    r.append(quoted_key);
    r.append(":");
    if data_is_json {
        r.append(data);
    } else {
        r.append(quoted_data);
    }
    r.append("}");
    proof {
        reveal_strlit("{");
        reveal_strlit(":");
        reveal_strlit("}");
    }
    assert(r@ =~= object_text(
        quoted_key@,
        if data_is_json {
            data@
        } else {
            quoted_data@
        },
    ));
    r
}

/// The JSON text of a schema entry: `{key: data}`, with the data as JSON
/// where it parses and as a string where it does not.
pub fn value_to_json(val: KeyValue) -> (r: String)
    ensures
        r@ == object_text(
            json_quoted(val.key@),
            if json_parses(val.data@) {
                val.data@
            } else {
                json_quoted(val.data@)
            },
        ),
{
    let qk = quote_json(val.key.as_str());
    let ok = is_json(val.data.as_str());
    let qd = quote_json(val.data.as_str());
    schema_object(qk.as_str(), val.data.as_str(), ok, qd.as_str())
}

} // verus!
