//! The request body builder: input rendering, cross-turn state, and the
//! optional fields.

use openai_responses::json::Json;
use openai_responses::model::{
    ChatCompletionsData, ContentPart, Message, MessageContent, MessageRole, Model, ToolResult,
};
use openai_responses::request::openai_build_responses_body;

fn entries(body: &Json) -> &Vec<(String, Json)> {
    match body {
        Json::Obj(e) => e,
        other => panic!("body is not an object: {:?}", other),
    }
}

fn get<'a>(body: &'a Json, key: &str) -> Option<&'a Json> {
    entries(body).iter().find(|(k, _)| k.as_str() == key).map(|(_, v)| v)
}

fn user_text(text: &str) -> Message {
    Message { role: MessageRole::User, content: MessageContent::Text(text.to_string()) }
}

fn data_of(messages: Vec<Message>) -> ChatCompletionsData {
    ChatCompletionsData {
        messages,
        temperature: None,
        top_p: None,
        functions: Vec::new(),
        stream: false,
    }
}

fn model() -> Model {
    Model { name: "gpt-test".to_string() }
}

#[test]
fn single_plain_message_is_bare_string() {
    let body = openai_build_responses_body(data_of(vec![user_text("hello there")]), &model());
    assert_eq!(get(&body, "model"), Some(&Json::Str("gpt-test".to_string())));
    assert_eq!(get(&body, "input"), Some(&Json::Str("hello there".to_string())));
    assert_eq!(get(&body, "instructions"), None);
    assert_eq!(get(&body, "previous_response_id"), None);
    assert_eq!(get(&body, "temperature"), None);
    assert_eq!(get(&body, "top_p"), None);
    assert_eq!(get(&body, "stream"), None);
    assert_eq!(get(&body, "tools"), None);
}

#[test]
fn optional_fields_present_when_set() {
    let mut data = data_of(vec![user_text("hi")]);
    data.temperature = Some("0.7".to_string());
    data.top_p = Some("0.9".to_string());
    data.stream = true;
    let body = openai_build_responses_body(data, &model());
    assert_eq!(get(&body, "temperature"), Some(&Json::Num("0.7".to_string())));
    assert_eq!(get(&body, "top_p"), Some(&Json::Num("0.9".to_string())));
    assert_eq!(get(&body, "stream"), Some(&Json::Bool(true)));
}

#[test]
fn continuation_round_trip() {
    let msgs = vec![
        Message {
            role: MessageRole::Assistant,
            content: MessageContent::Text("id:resp_123".to_string()),
        },
        user_text("hi again"),
    ];
    let body = openai_build_responses_body(data_of(msgs), &model());
    assert_eq!(
        get(&body, "previous_response_id"),
        Some(&Json::Str("resp_123".to_string()))
    );
    // the marker turn is excluded, so a single plain turn remains
    assert_eq!(get(&body, "input"), Some(&Json::Str("hi again".to_string())));
}

#[test]
fn instructions_from_most_recent_system_turn() {
    let msgs = vec![
        Message {
            role: MessageRole::System,
            content: MessageContent::Text("be brief".to_string()),
        },
        Message {
            role: MessageRole::System,
            content: MessageContent::Text("be kind".to_string()),
        },
        user_text("hello"),
    ];
    let body = openai_build_responses_body(data_of(msgs), &model());
    assert_eq!(get(&body, "instructions"), Some(&Json::Str("be kind".to_string())));
    // several turns remain, so the input is an array of turn objects
    match get(&body, "input") {
        Some(Json::Arr(items)) => {
            assert_eq!(items.len(), 3);
            assert_eq!(get(&items[2], "role"), Some(&Json::Str("user".to_string())));
            assert_eq!(get(&items[2], "content"), Some(&Json::Str("hello".to_string())));
        },
        other => panic!("input is not an array: {:?}", other),
    }
}

#[test]
fn parts_are_direction_tagged() {
    let msgs = vec![
        Message {
            role: MessageRole::Assistant,
            content: MessageContent::Parts(vec![ContentPart::Text {
                text: "done".to_string(),
            }]),
        },
        Message {
            role: MessageRole::User,
            content: MessageContent::Parts(vec![
                ContentPart::Text { text: "look".to_string() },
                ContentPart::ImageRef { url: "https://img.test/a.png".to_string() },
            ]),
        },
    ];
    let body = openai_build_responses_body(data_of(msgs), &model());
    let input = get(&body, "input").expect("input");
    let items = match input {
        Json::Arr(items) => items,
        other => panic!("input is not an array: {:?}", other),
    };
    let assistant_parts = match get(&items[0], "content") {
        Some(Json::Arr(parts)) => parts,
        other => panic!("content is not an array: {:?}", other),
    };
    assert_eq!(
        get(&assistant_parts[0], "type"),
        Some(&Json::Str("output_text".to_string()))
    );
    let user_parts = match get(&items[1], "content") {
        Some(Json::Arr(parts)) => parts,
        other => panic!("content is not an array: {:?}", other),
    };
    assert_eq!(get(&user_parts[0], "type"), Some(&Json::Str("input_text".to_string())));
    assert_eq!(get(&user_parts[1], "type"), Some(&Json::Str("input_image".to_string())));
    assert_eq!(
        get(&user_parts[1], "image_url"),
        Some(&Json::Str("https://img.test/a.png".to_string()))
    );
    assert_eq!(get(&user_parts[1], "detail"), Some(&Json::Str("auto".to_string())));
}

#[test]
fn tool_results_render_as_synthetic_user_turn() {
    let msgs = vec![
        user_text("first"),
        Message {
            role: MessageRole::Tool,
            content: MessageContent::ToolResults(vec![ToolResult {
                call_id: "call_7".to_string(),
                output: "42".to_string(),
            }]),
        },
    ];
    let body = openai_build_responses_body(data_of(msgs), &model());
    let items = match get(&body, "input") {
        Some(Json::Arr(items)) => items,
        other => panic!("input is not an array: {:?}", other),
    };
    assert_eq!(get(&items[1], "role"), Some(&Json::Str("user".to_string())));
    let blocks = match get(&items[1], "content") {
        Some(Json::Arr(blocks)) => blocks,
        other => panic!("content is not an array: {:?}", other),
    };
    assert_eq!(get(&blocks[0], "type"), Some(&Json::Str("tool_outputs".to_string())));
    let outs = match get(&blocks[0], "tool_outputs") {
        Some(Json::Arr(outs)) => outs,
        other => panic!("tool_outputs is not an array: {:?}", other),
    };
    assert_eq!(get(&outs[0], "tool_call_id"), Some(&Json::Str("call_7".to_string())));
    assert_eq!(get(&outs[0], "output"), Some(&Json::Str("42".to_string())));
}

#[test]
fn tools_wrap_each_definition() {
    let mut data = data_of(vec![user_text("hi")]);
    data.functions = vec![Json::Obj(vec![(
        "name".to_string(),
        Json::Str("get_weather".to_string()),
    )])];
    let body = openai_build_responses_body(data, &model());
    let tools = match get(&body, "tools") {
        Some(Json::Arr(tools)) => tools,
        other => panic!("tools is not an array: {:?}", other),
    };
    assert_eq!(tools.len(), 1);
    assert_eq!(get(&tools[0], "type"), Some(&Json::Str("function".to_string())));
    assert_eq!(
        get(&tools[0], "function"),
        Some(&Json::Obj(vec![(
            "name".to_string(),
            Json::Str("get_weather".to_string())
        )]))
    );
}

#[test]
fn builder_is_deterministic() {
    let make = || {
        let mut data = data_of(vec![
            Message {
                role: MessageRole::System,
                content: MessageContent::Text("sys".to_string()),
            },
            Message {
                role: MessageRole::Assistant,
                content: MessageContent::Text("id:resp_9".to_string()),
            },
            user_text("go"),
        ]);
        data.temperature = Some("0.5".to_string());
        data.stream = true;
        data
    };
    let b1 = openai_build_responses_body(make(), &model());
    let b2 = openai_build_responses_body(make(), &model());
    assert_eq!(b1, b2);
}
