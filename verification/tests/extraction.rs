//! The synchronous extractor, the error classifier, the history scan and
//! the prepared request.

use openai_responses::client::prepare_chat_completions;
use openai_responses::history::extract_history;
use openai_responses::json::Json;
use openai_responses::model::{
    ChatCompletionsData, ClientError, ContentPart, Message, MessageContent, MessageRole, Model,
    OpenAIResponsesClient, OpenAIResponsesConfig,
};
use openai_responses::reply::{classify_response, openai_extract_responses};

fn reply_with_text(text: &str) -> String {
    format!(
        "{{\"id\":\"resp_1\",\"output\":[{{\"content\":[{{\"text\":\"{}\"}}]}}],\"usage\":{{\"input_tokens\":3,\"output_tokens\":5}}}}",
        text
    )
}

#[test]
fn text_reply_succeeds_with_empty_tool_calls() {
    let out = openai_extract_responses(&reply_with_text("Hello!")).expect("a text reply succeeds");
    assert_eq!(out.text, "Hello!");
    assert!(out.tool_calls.is_empty());
    assert_eq!(out.id.as_deref(), Some("resp_1"));
    assert_eq!(out.input_tokens, Some(3));
    assert_eq!(out.output_tokens, Some(5));
}

#[test]
fn empty_result_is_rejected() {
    let body = "{\"id\":\"resp_1\",\"output\":[{\"content\":[{\"text\":\"\"}]}]}";
    match openai_extract_responses(body) {
        Err(ClientError::InvalidResponse(b)) => assert_eq!(b, body),
        other => panic!("expected an invalid-response failure, got {:?}", other),
    }
    let no_text = "{\"id\":\"resp_1\",\"output\":[]}";
    match openai_extract_responses(no_text) {
        Err(ClientError::InvalidResponse(b)) => assert_eq!(b, no_text),
        other => panic!("expected an invalid-response failure, got {:?}", other),
    }
}

#[test]
fn missing_usage_is_not_an_error() {
    let body = "{\"output\":[{\"content\":[{\"text\":\"hi\"}]}]}";
    let out = openai_extract_responses(body).expect("usage counters are optional");
    assert_eq!(out.id, None);
    assert_eq!(out.input_tokens, None);
    assert_eq!(out.output_tokens, None);
}

#[test]
fn unparsable_body_is_malformed() {
    match openai_extract_responses("][") {
        Err(ClientError::MalformedPayload(b)) => assert_eq!(b, "]["),
        other => panic!("expected a malformed-payload failure, got {:?}", other),
    }
}

#[test]
fn transport_failure_takes_precedence() {
    // the body would extract fine, but the status decides
    let body = reply_with_text("Looks good");
    match classify_response(500, &body) {
        Err(ClientError::TransportFailure { status, code, message, body: b }) => {
            assert_eq!(status, 500);
            assert_eq!(code, None);
            assert_eq!(message, None);
            assert_eq!(b, body);
        },
        other => panic!("expected a transport failure, got {:?}", other),
    }
}

#[test]
fn transport_failure_carries_the_error_envelope() {
    let body = "{\"error\":{\"code\":\"rate_limit\",\"message\":\"slow down\"}}";
    match classify_response(429, body) {
        Err(ClientError::TransportFailure { status, code, message, .. }) => {
            assert_eq!(status, 429);
            assert_eq!(code.as_deref(), Some("rate_limit"));
            assert_eq!(message.as_deref(), Some("slow down"));
        },
        other => panic!("expected a transport failure, got {:?}", other),
    }
}

#[test]
fn success_status_extracts() {
    let out = classify_response(200, &reply_with_text("ok")).expect("a success status extracts");
    assert_eq!(out.text, "ok");
}

#[test]
fn history_scan_takes_the_most_recent_entries() {
    let history = vec![
        Message {
            role: MessageRole::System,
            content: MessageContent::Text("be brief".to_string()),
        },
        Message {
            role: MessageRole::Assistant,
            content: MessageContent::Text("id: resp_8 \nand more".to_string()),
        },
        Message {
            role: MessageRole::Assistant,
            content: MessageContent::Text("plain answer".to_string()),
        },
    ];
    let (instructions, prev) = extract_history(&history);
    assert_eq!(instructions.as_deref(), Some("be brief"));
    assert_eq!(prev.as_deref(), Some("resp_8"));
}

#[test]
fn parts_content_reads_as_joined_text() {
    let c = MessageContent::Parts(vec![
        ContentPart::Text { text: "first".to_string() },
        ContentPart::ImageRef { url: "https://img.test/x.png".to_string() },
        ContentPart::Text { text: "second".to_string() },
    ]);
    assert_eq!(c.to_text(), "first\nsecond");
    let t = MessageContent::Text("plain".to_string());
    assert_eq!(t.to_text(), "plain");
}

fn client(api_key: Option<&str>, api_base: Option<&str>, org: Option<&str>) -> OpenAIResponsesClient {
    OpenAIResponsesClient {
        config: OpenAIResponsesConfig {
            name: Some("openai-responses".to_string()),
            api_key: api_key.map(|s| s.to_string()),
            api_base: api_base.map(|s| s.to_string()),
            organization_id: org.map(|s| s.to_string()),
            models: Vec::new(),
        },
        model: Model { name: "gpt-test".to_string() },
    }
}

fn one_message_data() -> ChatCompletionsData {
    ChatCompletionsData {
        messages: vec![Message {
            role: MessageRole::User,
            content: MessageContent::Text("hi".to_string()),
        }],
        temperature: None,
        top_p: None,
        functions: Vec::new(),
        stream: false,
    }
}

#[test]
fn prepare_joins_base_and_attaches_credentials() {
    let c = client(Some("sk-test"), Some("https://alt.test/v1/"), Some("org-9"));
    let rd = prepare_chat_completions(&c, one_message_data()).expect("key is configured");
    assert_eq!(rd.url, "https://alt.test/v1/responses");
    assert_eq!(rd.bearer_token.as_deref(), Some("sk-test"));
    assert_eq!(rd.headers.len(), 1);
    assert_eq!(rd.headers[0].0, "OpenAI-Organization");
    assert_eq!(rd.headers[0].1, "org-9");
    match &rd.body {
        Json::Obj(_) => {},
        other => panic!("body is not an object: {:?}", other),
    }
}

#[test]
fn prepare_uses_the_default_base() {
    let c = client(Some("sk-test"), None, None);
    let rd = prepare_chat_completions(&c, one_message_data()).expect("key is configured");
    assert_eq!(rd.url, "https://api.openai.com/v1/responses");
    assert!(rd.headers.is_empty());
}

#[test]
fn prepare_without_key_is_missing_credential() {
    let c = client(None, None, None);
    match prepare_chat_completions(&c, one_message_data()) {
        Err(ClientError::MissingCredential) => {},
        other => panic!("expected a missing-credential failure, got {:?}", other),
    }
}
