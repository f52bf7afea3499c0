//! The streaming event reducer: fragment reassembly, item boundaries, the
//! terminator, and malformed payloads.

use openai_responses::model::ClientError;
use openai_responses::stream::{StreamAccumulator, StreamEvent};

fn feed(acc: &mut StreamAccumulator, data: &str) -> Option<String> {
    match acc.handle_message(data) {
        Ok(step) => step.text,
        Err(e) => panic!("unexpected failure: {:?}", e),
    }
}

#[test]
fn fragmented_tool_call_reassembly() {
    let mut acc = StreamAccumulator::new();
    feed(
        &mut acc,
        "{\"type\":\"response.tool_code.delta\",\"item_id\":\"a\",\"part\":{\"function_name\":\"get_\"}}",
    );
    feed(
        &mut acc,
        "{\"type\":\"response.tool_code.delta\",\"item_id\":\"a\",\"part\":{\"function_name\":\"weather\",\"args_chunk\":\"{\\\"city\\\":\"}}",
    );
    feed(
        &mut acc,
        "{\"type\":\"response.tool_code.delta\",\"item_id\":\"a\",\"part\":{\"args_chunk\":\"\\\"sf\\\"}\"}}",
    );
    feed(&mut acc, "[DONE]");
    let calls = acc.into_tool_calls();
    assert_eq!(calls.len(), 1);
    assert_eq!(calls[0].name, "get_weather");
    assert_eq!(calls[0].arguments, "{\"city\":\"sf\"}");
    assert_eq!(calls[0].id.as_deref(), Some("a"));
}

#[test]
fn spaced_arguments_are_rendered_compact() {
    let mut acc = StreamAccumulator::new();
    feed(
        &mut acc,
        "{\"type\":\"response.tool_code.delta\",\"item_id\":\"a\",\"part\":{\"function_name\":\"f\",\"args_chunk\":\"{ \\\"n\\\" : 1 }\"}}",
    );
    feed(&mut acc, "[DONE]");
    let calls = acc.into_tool_calls();
    assert_eq!(calls[0].arguments, "{\"n\":1}");
}

#[test]
fn unparsable_arguments_degrade_to_null() {
    let mut acc = StreamAccumulator::new();
    feed(
        &mut acc,
        "{\"type\":\"response.tool_code.delta\",\"item_id\":\"a\",\"part\":{\"function_name\":\"f\",\"args_chunk\":\"{oops\"}}",
    );
    feed(&mut acc, "[DONE]");
    let calls = acc.into_tool_calls();
    assert_eq!(calls[0].name, "f");
    assert_eq!(calls[0].arguments, "null");
}

#[test]
fn multi_tool_call_boundary() {
    let mut acc = StreamAccumulator::new();
    let mk = |id: &str, name: &str, args: &str| StreamEvent {
        event_type: Some("response.tool_code.delta".to_string()),
        delta: None,
        item_id: Some(id.to_string()),
        function_name: Some(name.to_string()),
        args_chunk: Some(args.to_string()),
    };
    assert_eq!(acc.step(&mk("a", "first", "{}")), None);
    assert_eq!(acc.step(&mk("b", "second", "{}")), None);
    acc.finish();
    let calls = acc.into_tool_calls();
    assert_eq!(calls.len(), 2);
    assert_eq!(calls[0].name, "first");
    assert_eq!(calls[0].id.as_deref(), Some("a"));
    assert_eq!(calls[1].name, "second");
    assert_eq!(calls[1].id.as_deref(), Some("b"));
}

#[test]
fn text_deltas_forward_in_order() {
    let mut acc = StreamAccumulator::new();
    let t1 = feed(&mut acc, "{\"type\":\"response.output_text.delta\",\"delta\":\"Hel\"}");
    let t2 = feed(&mut acc, "{\"type\":\"response.output_text.delta\",\"delta\":\"lo\"}");
    assert_eq!(t1.as_deref(), Some("Hel"));
    assert_eq!(t2.as_deref(), Some("lo"));
    feed(&mut acc, "[DONE]");
    assert!(acc.into_tool_calls().is_empty());
}

#[test]
fn unrecognized_events_are_ignored() {
    let mut acc = StreamAccumulator::new();
    let t = feed(&mut acc, "{\"type\":\"response.something_else\",\"delta\":\"x\"}");
    assert_eq!(t, None);
    feed(&mut acc, "[DONE]");
    assert!(acc.into_tool_calls().is_empty());
}

#[test]
fn malformed_payload_fails_the_reduction() {
    let mut acc = StreamAccumulator::new();
    match acc.handle_message("this is not json") {
        Err(ClientError::MalformedPayload(b)) => assert_eq!(b, "this is not json"),
        other => panic!("expected a malformed-payload failure, got {:?}", other),
    }
}

#[test]
fn end_without_terminator_still_flushes() {
    let mut acc = StreamAccumulator::new();
    feed(
        &mut acc,
        "{\"type\":\"response.tool_code.delta\",\"item_id\":\"a\",\"part\":{\"function_name\":\"f\",\"args_chunk\":\"{}\"}}",
    );
    acc.finish();
    let calls = acc.into_tool_calls();
    assert_eq!(calls.len(), 1);
    assert_eq!(calls[0].name, "f");
}

#[test]
fn messages_after_terminator_change_nothing() {
    let mut acc = StreamAccumulator::new();
    feed(&mut acc, "[DONE]");
    let step = acc.handle_message("{\"type\":\"response.output_text.delta\",\"delta\":\"x\"}")
        .expect("a message after the terminator is ignored");
    assert!(step.done);
    assert_eq!(step.text, None);
}
