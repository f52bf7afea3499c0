//! The trusted boundary to the JSON codec.  Each wrapper makes one call
//! into the outside crate and names its result; everything that decides on
//! the parsed values is verified code elsewhere in the library.

use vstd::prelude::*;
use crate::history::view_opt;
use crate::reply::{ResponsesReply, ReplyV, view_reply_opt};
use crate::stream::{StreamEvent, StreamEventV, view_event_opt};

verus! {

/// The fields of a reply body, as parsing the text yields them; the result
/// depends on the text alone.
pub uninterp spec fn spec_parse_reply(s: Seq<char>) -> Option<ReplyV>;

/// Relies on serde_json::from_str for `serde_json::Value` and on the
/// `Value` accessors: reads the documented reply fields out of one body.
/// Indexing a `Value` never fails; a missing or differently-typed field
/// reads as absent.
#[verifier::external_body]
pub fn parse_reply(s: &str) -> (r: Option<ResponsesReply>)
    ensures
        view_reply_opt(r) == spec_parse_reply(s@),
{
    let v: serde_json::Value = match serde_json::from_str(s) {
        Ok(v) => v,
        Err(_) => return None,
    };
    Some(ResponsesReply {
        text: v["output"][0]["content"][0]["text"].as_str().map(|t| t.to_string()),
        id: v["id"].as_str().map(|t| t.to_string()),
        input_tokens: v["usage"]["input_tokens"].as_u64(),
        output_tokens: v["usage"]["output_tokens"].as_u64(),
        error_code: v["error"]["code"].as_str().map(|t| t.to_string()),
        error_message: v["error"]["message"].as_str().map(|t| t.to_string()),
    })
}

/// The fields of one streamed event, as parsing its payload yields them;
/// the result depends on the text alone.
pub uninterp spec fn spec_parse_event(s: Seq<char>) -> Option<StreamEventV>;

/// Relies on serde_json::from_str for `serde_json::Value` and on the
/// `Value` accessors: reads the recognized event fields out of one payload.
/// Indexing a `Value` never fails; a missing or differently-typed field
/// reads as absent.
#[verifier::external_body]
pub fn parse_event(s: &str) -> (r: Option<StreamEvent>)
    ensures
        view_event_opt(r) == spec_parse_event(s@),
{
    let v: serde_json::Value = match serde_json::from_str(s) {
        Ok(v) => v,
        Err(_) => return None,
    };
    Some(StreamEvent {
        event_type: v["type"].as_str().map(|t| t.to_string()),
        delta: v["delta"].as_str().map(|t| t.to_string()),
        item_id: v["item_id"].as_str().map(|t| t.to_string()),
        function_name: v["part"]["function_name"].as_str().map(|t| t.to_string()),
        args_chunk: v["part"]["args_chunk"].as_str().map(|t| t.to_string()),
    })
}

/// The compact rendering of a JSON text, when it parses; the result
/// depends on the text alone.
pub uninterp spec fn spec_canonical_json(s: Seq<char>) -> Option<Seq<char>>;

/// Relies on serde_json::from_str for `serde_json::Value` and on its
/// `Display` rendering: reparses a JSON text into its compact form.
#[verifier::external_body]
pub fn canonicalize_json(s: &str) -> (r: Option<String>)
    ensures
        view_opt(r) == spec_canonical_json(s@),
{
    serde_json::from_str::<serde_json::Value>(s).ok().map(|v| v.to_string())
}

} // verus!
