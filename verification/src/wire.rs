//! Reading the server's response bodies.

use vstd::prelude::*;

verus! {

/// The strings that mission-response parsing reads from a body at
/// `result.payload` and `result.require`, or nothing when the body is not
/// a JSON object of that shape.
pub uninterp spec fn mission_fields_of(body: Seq<char>) -> Option<(Seq<char>, Seq<char>)>;

/// Relies on serde_json::from_str and serde_json::Value's get, is_object
/// and as_str: the strings at `result.payload` and `result.require` of a
/// JSON document, a function of the body text alone.
#[verifier::external_body]
pub(crate) fn parse_mission_fields(body: &str) -> (r: Option<(String, String)>)
    ensures
        match r {
            Some(p) => mission_fields_of(body@) matches Some(q) && p.0@ == q.0 && p.1@ == q.1,
            None => mission_fields_of(body@) is None,
        },
{
    let v: serde_json::Value = serde_json::from_str(body).ok()?;
    let result = v.get("result")?;
    if !result.is_object() {
        return None;
    }
    let payload = result.get("payload")?.as_str()?;
    let require = result.get("require")?.as_str()?;
    Some((payload.to_string(), require.to_string()))
}

/// The identifier list that claim- and record-response parsing reads from
/// a body: the string at `pow_id` in each element of the `result` array,
/// or nothing when the body is not of that shape.
pub uninterp spec fn pow_ids_of(body: Seq<char>) -> Option<Seq<Seq<char>>>;

/// Relies on serde_json::from_str and serde_json::Value's get, as_array
/// and as_str: the `pow_id` string of each element of the `result` array
/// of a JSON document, a function of the body text alone.
#[verifier::external_body]
pub(crate) fn parse_pow_ids(body: &str) -> (r: Option<Vec<String>>)
    ensures
        match r {
            Some(ids) => pow_ids_of(body@) matches Some(q) && ids.deep_view() == q,
            None => pow_ids_of(body@) is None,
        },
{
    let v: serde_json::Value = serde_json::from_str(body).ok()?;
    let arr = v.get("result")?.as_array()?;
    arr.iter().map(|x| x.get("pow_id").and_then(|p| p.as_str()).map(|s| s.to_string())).collect()
}

} // verus!
