//! The synchronous response extractor and the error classifier: one
//! complete reply body becomes canonical output, or a structured failure.
//! The wire shape handled here is the reduced variant: the assistant text
//! stands at one documented location and carries no tool calls.

use vstd::prelude::*;
use vstd::string::StrSliceExecFns;
use crate::history::view_opt;
use crate::model::{ChatCompletionsOutput, ClientError};
use crate::wire::{parse_reply, spec_parse_reply};

verus! {

/// Mathematical mirror of `ResponsesReply`.
pub struct ReplyV {
    pub text: Option<Seq<char>>,
    pub id: Option<Seq<char>>,
    pub input_tokens: Option<u64>,
    pub output_tokens: Option<u64>,
    pub error_code: Option<Seq<char>>,
    pub error_message: Option<Seq<char>>,
}

/// The fields of one reply body, read at their documented locations: the
/// assistant text of the reduced wire shape, the reply identifier, the
/// usage counters, and the error envelope fields.
pub struct ResponsesReply {
    pub text: Option<String>,
    pub id: Option<String>,
    pub input_tokens: Option<u64>,
    pub output_tokens: Option<u64>,
    pub error_code: Option<String>,
    pub error_message: Option<String>,
}

impl View for ResponsesReply {
    type V = ReplyV;

    open spec fn view(&self) -> ReplyV {
        ReplyV {
            text: view_opt(self.text),
            id: view_opt(self.id),
            input_tokens: self.input_tokens,
            output_tokens: self.output_tokens,
            error_code: view_opt(self.error_code),
            error_message: view_opt(self.error_message),
        }
    }
}

/// View of a parse result.
pub open spec fn view_reply_opt(r: Option<ResponsesReply>) -> Option<ReplyV> {
    match r {
        Some(p) => Some(p@),
        None => None,
    }
}

/// What extraction returns for a parsed reply: canonical output when the
/// reply carries non-empty text, `InvalidResponse` carrying the raw body
/// when it does not.
pub open spec fn spec_extract_result(
    rep: ReplyV,
    raw: Seq<char>,
    r: Result<ChatCompletionsOutput, ClientError>,
) -> bool {
    match r {
        Ok(out) => {
            &&& rep.text matches Some(t) && t.len() > 0 && out.text@ == t
            &&& out.tool_calls@.len() == 0
            &&& view_opt(out.id) == rep.id
            &&& out.input_tokens == rep.input_tokens
            &&& out.output_tokens == rep.output_tokens
        },
        Err(e) => {
            &&& !(rep.text matches Some(t) && t.len() > 0)
            &&& e matches ClientError::InvalidResponse(b) && b@ == raw
        },
    }
}

/// Turn one parsed reply into canonical output.  Succeeds exactly when the
/// reply carries non-empty assistant text; usage counters and the reply
/// identifier are optional.  `raw` is the body the reply was parsed from,
/// attached to the failure for diagnosis.
pub fn extract_from_reply(rep: &ResponsesReply, raw: &str) -> (r: Result<
    ChatCompletionsOutput,
    ClientError,
>)
    ensures
        spec_extract_result(rep@, raw@, r),
        r matches Ok(out) ==> out.well_formed(),
{
    match &rep.text {
        Some(t) => {
            if t.as_str().is_empty() {
                Err(ClientError::InvalidResponse(raw.to_owned()))
            } else {
                let id = match &rep.id {
                    Some(s) => Some(s.clone()),
                    None => None,
                };
                Ok(
                    ChatCompletionsOutput {
                        text: t.clone(),
                        tool_calls: Vec::new(),
                        id,
                        input_tokens: rep.input_tokens,
                        output_tokens: rep.output_tokens,
                    },
                )
            }
        },
        None => Err(ClientError::InvalidResponse(raw.to_owned())),
    }
}

/// Extract canonical output from one reply body.  A body that does not
/// parse fails with `MalformedPayload`; a parsed body is handed to
/// `extract_from_reply`.
pub fn openai_extract_responses(body: &str) -> (r: Result<ChatCompletionsOutput, ClientError>)
    ensures
        spec_parse_reply(body@) is None ==> (r matches Err(e) && e matches
            ClientError::MalformedPayload(b) && b@ == body@),
        spec_parse_reply(body@) matches Some(rep) ==> spec_extract_result(rep, body@, r),
        r matches Ok(out) ==> out.well_formed(),
{
    match parse_reply(body) {
        None => Err(ClientError::MalformedPayload(body.to_owned())),
        Some(rep) => extract_from_reply(&rep, body),
    }
}

/// Whether a transport status reports success.
pub open spec fn spec_status_success(status: u16) -> bool {
    200 <= status < 300
}

/// Classify one exchange outcome.  A non-success status always fails with
/// `TransportFailure`, whatever the body holds; the vendor's error code and
/// message are carried when the body parses, and the raw body is carried
/// either way.  On a success status the body goes to extraction.
pub fn classify_response(status: u16, body: &str) -> (r: Result<ChatCompletionsOutput, ClientError>)
    ensures
        !spec_status_success(status) ==> (r matches Err(e) && e matches
            ClientError::TransportFailure { status: st, code, message, body: b } && st == status
            && b@ == body@ && (match spec_parse_reply(body@) {
            Some(rep) => view_opt(code) == rep.error_code && view_opt(message)
                == rep.error_message,
            None => code is None && message is None,
        })),
        spec_status_success(status) && spec_parse_reply(body@) is None ==> (r matches Err(e)
            && e matches ClientError::MalformedPayload(b) && b@ == body@),
        spec_status_success(status) ==> (spec_parse_reply(body@) matches Some(rep)
            ==> spec_extract_result(rep, body@, r)),
        r matches Ok(out) ==> out.well_formed(),
{
    if status < 200 || status >= 300 {
        match parse_reply(body) {
            Some(rep) => Err(
                ClientError::TransportFailure {
                    status,
                    code: rep.error_code,
                    message: rep.error_message,
                    body: body.to_owned(),
                },
            ),
            None => Err(
                ClientError::TransportFailure {
                    status,
                    code: None,
                    message: None,
                    body: body.to_owned(),
                },
            ),
        }
    } else {
        openai_extract_responses(body)
    }
}

} // verus!
