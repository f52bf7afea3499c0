//! The canonical, provider-agnostic conversation model: role-tagged messages
//! with plain text, multi-part, or tool-result content, together with the
//! adapter's inputs, outputs and error taxonomy.

use vstd::prelude::*;
use vstd::string::StrSliceExecFns;
use vstd::string::StringExecFns;

verus! {

/// The role a conversation turn is tagged with.  Order of the messages in a
/// conversation is oldest first.
#[derive(Clone, Copy, PartialEq, Eq, Structural, Debug)]
pub enum MessageRole {
    System,
    User,
    Assistant,
    Tool,
}

impl MessageRole {
    /// The wire name of the role.
    pub open spec fn spec_name(self) -> Seq<char> {
        match self {
            MessageRole::System => "system"@,
            MessageRole::User => "user"@,
            MessageRole::Assistant => "assistant"@,
            MessageRole::Tool => "tool"@,
        }
    }

    pub fn name(&self) -> (r: &'static str)
        ensures
            r@ == self.spec_name(),
    {
        match self {
            MessageRole::System => "system",
            MessageRole::User => "user",
            MessageRole::Assistant => "assistant",
            MessageRole::Tool => "tool",
        }
    }
}

/// One entry of a structured, multi-part message content.
#[derive(Clone, Debug)]
pub enum ContentPart {
    Text { text: String },
    ImageRef { url: String },
}

/// One tool invocation output, correlated to an earlier tool call by its id.
#[derive(Clone, Debug)]
pub struct ToolResult {
    pub call_id: String,
    pub output: String,
}

/// Message content: plain text, an ordered sequence of parts, or an ordered
/// sequence of tool invocation outputs.
#[derive(Clone, Debug)]
pub enum MessageContent {
    Text(String),
    Parts(Vec<ContentPart>),
    ToolResults(Vec<ToolResult>),
}

/// One role-tagged conversation turn.
#[derive(Clone, Debug)]
pub struct Message {
    pub role: MessageRole,
    pub content: MessageContent,
}

/// The text parts of a part sequence, in order.
pub open spec fn spec_text_parts(parts: Seq<ContentPart>) -> Seq<Seq<char>>
    decreases parts.len(),
{
    if parts.len() == 0 {
        Seq::empty()
    } else {
        let rest = spec_text_parts(parts.drop_last());
        match parts.last() {
            ContentPart::Text { text } => rest.push(text@),
            ContentPart::ImageRef { .. } => rest,
        }
    }
}

/// Texts joined with a single newline between consecutive entries.
pub open spec fn spec_join_lines(ts: Seq<Seq<char>>) -> Seq<char>
    decreases ts.len(),
{
    if ts.len() == 0 {
        Seq::empty()
    } else if ts.len() == 1 {
        ts[0]
    } else {
        spec_join_lines(ts.drop_last()) + seq!['\n'] + ts.last()
    }
}

/// The plain-text reading of a message content: the text itself, the text
/// parts joined with newlines, or nothing for tool results.
pub open spec fn spec_content_text(c: MessageContent) -> Seq<char> {
    match c {
        MessageContent::Text(t) => t@,
        MessageContent::Parts(parts) => spec_join_lines(spec_text_parts(parts@)),
        MessageContent::ToolResults(_) => Seq::empty(),
    }
}

impl MessageContent {
    /// The plain-text reading of this content.
    pub fn to_text(&self) -> (r: String)
        ensures
            r@ == spec_content_text(*self),
    {
        match self {
            MessageContent::Text(t) => t.clone(),
            MessageContent::Parts(parts) => join_text_parts(parts),
            MessageContent::ToolResults(_) => String::new(),
        }
    }
}

fn join_text_parts(parts: &Vec<ContentPart>) -> (r: String)
    ensures
        r@ == spec_join_lines(spec_text_parts(parts@)),
{
    let mut texts: Vec<&String> = Vec::new();
    let mut i: usize = 0;
    while i < parts.len()
        invariant
            i <= parts.len(),
            texts@.len() == spec_text_parts(parts@.take(i as int)).len(),
            forall|k: int|
                0 <= k < texts@.len() ==> texts@[k]@ == spec_text_parts(
                    parts@.take(i as int),
                )[k],
        decreases parts.len() - i,
    {
        proof {
            assert(parts@.take(i + 1).drop_last() =~= parts@.take(i as int));
            assert(parts@.take(i + 1).last() == parts@[i as int]);
        }
        match &parts[i] {
            ContentPart::Text { text } => { texts.push(text); },
            ContentPart::ImageRef { .. } => {},
        }
        i = i + 1;
    }
    proof {
        assert(parts@.take(parts@.len() as int) =~= parts@);
    }
    let ghost ts = spec_text_parts(parts@);
    let mut out = String::new();
    let mut j: usize = 0;
    while j < texts.len()
        invariant
            j <= texts@.len(),
            texts@.len() == ts.len(),
            forall|k: int| 0 <= k < ts.len() ==> texts@[k]@ == ts[k],
            out@ == spec_join_lines(ts.take(j as int)),
        decreases texts.len() - j,
    {
        proof {
            reveal_strlit("\n");
            assert("\n"@ =~= seq!['\n']);
            assert(ts.take(j + 1).drop_last() =~= ts.take(j as int));
            assert(ts.take(j + 1).last() == ts[j as int]);
            if j == 0 {
                assert(ts.take(1) =~= seq![ts[0]]);
            }
        }
        if j > 0 {
            out.append("\n");
        }
        out.append(texts[j].as_str());
        j = j + 1;
    }
    proof {
        assert(ts.take(ts.len() as int) =~= ts);
    }
    out
}

/// Mathematical mirror of `ToolCall`.
pub struct ToolCallV {
    pub name: Seq<char>,
    pub arguments: Seq<char>,
    pub id: Option<Seq<char>>,
}

/// A structured request, emitted by the assistant, to invoke a named
/// capability.  `arguments` carries the invocation arguments as canonical
/// JSON text (`"null"` when none could be parsed); `id` correlates the call
/// to a later tool result.
#[derive(Clone, Debug)]
pub struct ToolCall {
    pub name: String,
    pub arguments: String,
    pub id: Option<String>,
}

impl View for ToolCall {
    type V = ToolCallV;

    open spec fn view(&self) -> ToolCallV {
        ToolCallV {
            name: self.name@,
            arguments: self.arguments@,
            id: match self.id {
                Some(s) => Some(s@),
                None => None,
            },
        }
    }
}

/// The inputs the request body builder consumes: the conversation, sampling
/// parameters (each a number carried as its decimal text), tool definitions,
/// and the streaming flag.
pub struct ChatCompletionsData {
    pub messages: Vec<Message>,
    pub temperature: Option<String>,
    pub top_p: Option<String>,
    pub functions: Vec<crate::json::Json>,
    pub stream: bool,
}

/// The canonical output of one exchange: assistant text, tool call
/// requests, the server's response identifier, and token-usage counters.
#[derive(Clone, Debug)]
pub struct ChatCompletionsOutput {
    pub text: String,
    pub tool_calls: Vec<ToolCall>,
    pub id: Option<String>,
    pub input_tokens: Option<u64>,
    pub output_tokens: Option<u64>,
}

impl ChatCompletionsOutput {
    /// An output with neither text nor tool calls is invalid.
    pub open spec fn well_formed(self) -> bool {
        self.text@.len() > 0 || self.tool_calls@.len() > 0
    }
}

/// What can go wrong with a single exchange.  Every variant carries enough
/// of the offending payload to diagnose the failure without a second round
/// trip.
#[derive(Clone, Debug)]
pub enum ClientError {
    /// The transport reported a non-success status; the vendor's error code
    /// and message are carried when the body parsed as an error envelope.
    TransportFailure { status: u16, code: Option<String>, message: Option<String>, body: String },
    /// The body failed to parse as the expected structure.
    MalformedPayload(String),
    /// The reply was well formed but semantically empty: no text and no
    /// tool calls.
    InvalidResponse(String),
    /// No API key could be resolved.
    MissingCredential,
}

/// One model entry of the client configuration.
#[derive(Clone, Debug)]
pub struct ModelData {
    pub name: String,
}

/// Client configuration: credentials, endpoint base, organization header
/// value, and the models offered.
#[derive(Clone, Debug)]
pub struct OpenAIResponsesConfig {
    pub name: Option<String>,
    pub api_key: Option<String>,
    pub api_base: Option<String>,
    pub organization_id: Option<String>,
    pub models: Vec<ModelData>,
}

/// The model a request is addressed to.
#[derive(Clone, Debug)]
pub struct Model {
    pub name: String,
}

impl Model {
    /// The name the wire request carries.
    pub fn real_name(&self) -> (r: &str)
        ensures
            r@ == self.name@,
    {
        self.name.as_str()
    }
}

/// A configured client: its configuration and the selected model.
#[derive(Clone, Debug)]
pub struct OpenAIResponsesClient {
    pub config: OpenAIResponsesConfig,
    pub model: Model,
}

impl OpenAIResponsesClient {
    /// The API key, or `MissingCredential` when the configuration has none.
    pub fn get_api_key(&self) -> (r: Result<String, ClientError>)
        ensures
            match r {
                Ok(k) => self.config.api_key matches Some(c) && k@ == c@,
                Err(e) => self.config.api_key is None && e is MissingCredential,
            },
    {
        match &self.config.api_key {
            Some(k) => Ok(k.clone()),
            None => Err(ClientError::MissingCredential),
        }
    }

    /// The configured endpoint base; absence is reported so the caller
    /// can fall back to the default base.
    pub fn get_api_base(&self) -> (r: Option<&String>)
        ensures
            match r {
                Some(b) => self.config.api_base matches Some(c) && b@ == c@,
                None => self.config.api_base is None,
            },
    {
        match &self.config.api_base {
            Some(b) => Some(b),
            None => None,
        }
    }
}

/// A prepared wire request: destination, JSON body, bearer token and extra
/// headers, ready for a transport to send.
#[derive(Debug)]
pub struct RequestData {
    pub url: String,
    pub body: crate::json::Json,
    pub bearer_token: Option<String>,
    pub headers: Vec<(String, String)>,
}

impl RequestData {
    pub fn new(url: String, body: crate::json::Json) -> (r: RequestData)
        ensures
            r.url@ == url@,
            r.body == body,
            r.bearer_token is None,
            r.headers@.len() == 0,
    {
        RequestData { url, body, bearer_token: None, headers: Vec::new() }
    }

    /// Attach a bearer token.
    pub fn bearer_auth(&mut self, token: String)
        ensures
            final(self).url == old(self).url,
            final(self).body == old(self).body,
            final(self).headers == old(self).headers,
            final(self).bearer_token matches Some(t) && t@ == token@,
    {
        self.bearer_token = Some(token);
    }

    /// Attach one extra header.
    pub fn header(&mut self, key: &str, value: &str)
        ensures
            final(self).url == old(self).url,
            final(self).body == old(self).body,
            final(self).bearer_token == old(self).bearer_token,
            final(self).headers@.len() == old(self).headers@.len() + 1,
            final(self).headers@.drop_last() == old(self).headers@,
            final(self).headers@.last().0@ == key@,
            final(self).headers@.last().1@ == value@,
    {
        self.headers.push((key.to_owned(), value.to_owned()));
    }
}

/// Character-wise equality of two string slices.
pub fn str_eq(a: &str, b: &str) -> (r: bool)
    ensures
        r == (a@ == b@),
{
    let alen = a.unicode_len();
    let blen = b.unicode_len();
    if alen != blen {
        proof {
            assert(a@ != b@);
        }
        return false;
    }
    let mut i: usize = 0;
    while i < alen
        invariant
            alen == a@.len(),
            blen == b@.len(),
            alen == blen,
            i <= alen,
            forall|k: int| 0 <= k < i ==> a@[k] == b@[k],
        decreases alen - i,
    {
        if a.get_char(i) != b.get_char(i) {
            return false;
        }
        i = i + 1;
    }
    proof {
        assert(a@ =~= b@);
    }
    true
}

} // verus!
