//! The few points where the library leans on outside crates: the clock, the
//! task-id generator, and the JSON parser used on tool-call envelopes. Each
//! is a thin wrapper whose contract states no more than the crate's own
//! documentation and source show.

use vstd::prelude::*;

verus! {

/// What `parse_tool_call` extracts from an envelope body: the string under
/// the JSON object's `name` field, paired with the string under
/// `arguments`.`command` when present; `None` when the body does not parse
/// as a JSON object with a string `name`. The value is a function of the
/// body text alone.
pub uninterp spec fn tool_call_fields(s: Seq<char>) -> Option<(Seq<char>, Option<Seq<char>>)>;

/// Relies on `serde_json::from_str` and `serde_json::Value`'s accessors
/// `get` and `as_str`: parses the whitespace-trimmed body as JSON and
/// extracts the `name` and `arguments`.`command` strings. Deterministic in
/// the body, so its result is named by `tool_call_fields`.
#[verifier::external_body]
pub fn parse_tool_call(body: &str) -> (r: Option<(String, Option<String>)>)
    ensures
        tool_call_fields(body@) == (match r {
            Option::None => Option::<(Seq<char>, Option<Seq<char>>)>::None,
            Option::Some(p) => Option::Some(
                (p.0@, match p.1 {
                    Option::None => Option::<Seq<char>>::None,
                    Option::Some(c) => Option::Some(c@),
                }),
            ),
        }),
{
    let v: serde_json::Value = match serde_json::from_str(body.trim()) {
        Ok(v) => v,
        Err(_) => return None,
    };
    let name = match v.get("name").and_then(|n| n.as_str()) {
        Some(s) => s.to_string(),
        None => return None,
    };
    let cmd = v
        .get("arguments")
        .and_then(|a| a.get("command"))
        .and_then(|c| c.as_str())
        .map(|s| s.to_string());
    Some((name, cmd))
}

/// Relies on chrono's `Utc::now` and `DateTime::to_rfc3339`: the current
/// UTC time rendered as an RFC 3339 string. The value depends on the clock,
/// so nothing is assumed of it.
#[verifier::external_body]
pub fn now_rfc3339() -> String {
    chrono::Utc::now().to_rfc3339()
}

/// Relies on uuid's `Uuid::new_v4` and its hyphenated `Display` form: a
/// fresh random version-4 UUID. The value depends on the process's
/// randomness, so only the documented 36-character length is assumed.
#[verifier::external_body]
pub fn fresh_task_id() -> (id: String)
    ensures
        id@.len() == 36,
{
    uuid::Uuid::new_v4().to_string()
}

} // verus!
