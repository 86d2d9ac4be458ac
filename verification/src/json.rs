//! The table of scores as JSON text, read and written by `serde_json`.
//!
//! Nothing in this file is proved: the contracts below are taken on trust
//! from `serde_json` and say what the rest of the library relies on.

use crate::scores::{Entry, Scores};
use std::collections::HashMap;
use vstd::prelude::*;

verus! {

/// The error type of `serde_json`. Nothing is known of a value of it.
#[verifier::external_type_specification]
#[verifier::external_body]
pub struct ExJsonError(serde_json::Error);

/// The table that `serde_json::from_str::<HashMap<String, i32>>` reads from
/// `text`, or `None` where it returns an error. What it reads depends on the
/// text alone.
pub uninterp spec fn json_scores(text: Seq<char>) -> Option<Map<Seq<char>, i32>>;

/// Calls `serde_json::from_str` to read `text` as a JSON object whose members
/// are 32-bit integers, and hands its members out as a table.
///
/// Claimed: the call succeeds exactly where `json_scores` is `Some`, and the
/// table then holds exactly the members read, each address once (the
/// `HashMap` that they come from has each key once).
#[verifier::external_body]
pub(crate) fn parse_scores(text: &str) -> (parsed: Result<Scores, serde_json::Error>)
    ensures
        match parsed {
            Ok(table) => table.wf() && json_scores(text@) == Some(table@),
            Err(_) => json_scores(text@) is None,
        },
{
    let members: HashMap<String, i32> = serde_json::from_str(text)?;
    let mut entries = Vec::new();
    for (address, score) in members {
        entries.push(Entry { address, score });
    }
    Ok(Scores { entries })
}

/// Calls `serde_json::to_string` on the table as a `HashMap<String, i32>`.
///
/// Claimed: the call succeeds, and its text is a JSON object from which
/// `serde_json::from_str` reads the same table again. `serde_json` documents
/// two causes of failure, a `Serialize` impl that fails and a map whose keys
/// are not strings; a `HashMap<String, i32>` has neither, and the text is
/// written into a `Vec<u8>`, which takes every write. Nothing is claimed of
/// the order of the members in the text, which follows the `HashMap`.
#[verifier::external_body]
pub(crate) fn render_scores(table: &Scores) -> (rendered: Result<String, serde_json::Error>)
    requires
        table.wf(),
    ensures
        rendered is Ok,
        rendered matches Ok(text) ==> json_scores(text@) == Some(table@),
{
    let mut members: HashMap<String, i32> = HashMap::new();
    for entry in table.entries.iter() {
        members.insert(entry.address.clone(), entry.score);
    }
    serde_json::to_string(&members)
}

} // verus!
