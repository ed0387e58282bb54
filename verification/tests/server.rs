use toolbelt::config::PropagatedHeader;
use toolbelt::json::{Json, JsonObject};
use toolbelt::mcp::{CallToolResult, RawContent, Tool};
use toolbelt::schema::SchemaValidator;
use toolbelt::server::span::{
    call_attributes, is_span_error, otlp_transport, plan_mcp_span, request_attributes, request_meta, span_context,
    traceparent, AttributeValue, Attributes, OtlpTransport, RequestOrigin,
};
use toolbelt::server::{
    admit_call, apply_meta, build_mcp_result_from_message, build_message_from_mcp_call, conclude_mcp_result,
    draft_from_body, finish_mcp_result, propagated_headers, result_from_value, skipped_request_meta, CallEvent, McpServer,
    Message, MessageDraft, ReplyStep, ResolvedTool, ResolvedToolTarget, ToolCall,
};

fn json(text: &str) -> Json {
    Json::parse(text).unwrap_or_else(|e| panic!("not JSON: {e}"))
}

fn object(text: &str) -> JsonObject {
    match json(text) {
        Json::Object(o) => o,
        _ => panic!("not an object: {text}"),
    }
}

fn entry(text: &str) -> PropagatedHeader {
    match text.split_once(" as ") {
        Some((source, target)) => PropagatedHeader { source: source.to_string(), target: target.to_string() },
        None => PropagatedHeader { source: text.to_string(), target: text.to_string() },
    }
}

fn pair(key: &str, value: &str) -> (String, String) {
    (key.to_string(), value.to_string())
}

// The value that a message built from a draft has under a header: the last written.
fn header<'a>(draft: &'a MessageDraft, name: &str) -> Option<&'a str> {
    draft.headers.iter().rev().find(|(k, _)| k == name).map(|(_, v)| v.as_str())
}

fn text(result: &CallToolResult, i: usize) -> String {
    match &result.content[i].raw {
        RawContent::Text(t) => t.text.clone(),
        _ => panic!("no text"),
    }
}

fn is_error(result: &CallToolResult) -> bool {
    result.is_error.unwrap_or(false)
}

fn structured(result: &CallToolResult) -> String {
    result.structured_content.as_ref().unwrap().to_text()
}

fn meta_text(result: &CallToolResult, key: &str) -> Option<String> {
    result.meta.as_ref().unwrap().get(key).map(|v| v.to_text())
}

fn tool_with_output_schema(output_schema: Option<&str>) -> Tool {
    Tool {
        name: "test".to_string(),
        title: Some("test".to_string()),
        description: Some("test".to_string()),
        input_schema: object(r#"{ "type": "object" }"#),
        output_schema: output_schema.map(object),
        annotations: None,
        meta: None,
    }
}

fn reply_msg(body: &str) -> Message {
    Message { body: body.as_bytes().to_vec(), headers: vec![pair("content-type", "application/json")] }
}

fn reply_with(body: &str, name: &str, value: &str) -> Message {
    let mut message = reply_msg(body);
    message.headers.push(pair(name, value));
    message
}

fn validator(schema: &str) -> Option<SchemaValidator> {
    Some(SchemaValidator::compile(&json(schema)).unwrap_or_else(|e| panic!("{e}")))
}

// A reply as a result, where coercion to the schema leaves the value as it is.
fn result_of(msg: &Message, tool: &Tool, validator: &Option<SchemaValidator>, propagate: Vec<PropagatedHeader>) -> CallToolResult {
    match build_mcp_result_from_message(msg, tool, &propagate) {
        ReplyStep::Done(result) => result,
        ReplyStep::Coerce { value, meta, .. } => finish_mcp_result(Ok(value), validator, meta),
    }
}

#[test]
fn build_message_serializes_arguments_as_json_body() {
    let arguments = object(r#"{ "x": 5, "y": "hi" }"#);
    let msg = build_message_from_mcp_call(&arguments, None, &vec![]).ok().unwrap();
    assert_eq!(msg.content_type, "application/json");
    let parsed: serde_json::Value = serde_json::from_slice(&msg.body).unwrap();
    let expected: serde_json::Value = serde_json::from_str(r#"{ "x": 5, "y": "hi" }"#).unwrap();
    assert_eq!(parsed, expected);
}

#[test]
fn build_message_attaches_declared_propagate_meta_entries() {
    let arguments = object("{}");
    let m = object(
        r#"{
            "io.example.tools/foo": "bar",
            "com.example.auth/token": "tok-123",
            "dev.unrelated/key": "ignored"
        }"#,
    );
    let propagate = vec![entry("io.example.tools/foo"), entry("com.example.auth/token")];
    let msg = build_message_from_mcp_call(&arguments, Some(&m), &propagate).ok().unwrap();
    assert_eq!(header(&msg, "io.example.tools/foo"), Some("bar"));
    assert_eq!(header(&msg, "com.example.auth/token"), Some("tok-123"));
    assert!(header(&msg, "dev.unrelated/key").is_none());
}

#[test]
fn build_message_skips_non_string_propagate_meta_entries() {
    let arguments = object("{}");
    let m = object(r#"{ "io.example/object-value": { "nested": 1 }, "io.example/string-value": "ok" }"#);
    let propagate = vec![entry("io.example/object-value"), entry("io.example/string-value")];
    let msg = build_message_from_mcp_call(&arguments, Some(&m), &propagate).ok().unwrap();
    assert!(header(&msg, "io.example/object-value").is_none());
    assert_eq!(header(&msg, "io.example/string-value"), Some("ok"));
}

#[test]
fn build_message_with_no_meta_and_no_propagate() {
    let arguments = object(r#"{ "a": 1 }"#);
    let msg = build_message_from_mcp_call(&arguments, None, &vec![]).ok().unwrap();
    assert_eq!(msg.content_type, "application/json");
    let parsed: serde_json::Value = serde_json::from_slice(&msg.body).unwrap();
    let expected: serde_json::Value = serde_json::from_str(r#"{ "a": 1 }"#).unwrap();
    assert_eq!(parsed, expected);
}

#[test]
fn build_result_no_schema_returns_text() {
    let tool = tool_with_output_schema(None);
    let r = result_of(&reply_msg(r#"{"value":42}"#), &tool, &None, vec![]);
    assert!(!is_error(&r));
    let parsed: serde_json::Value = serde_json::from_str(&text(&r, 0)).unwrap();
    let expected: serde_json::Value = serde_json::from_str(r#"{ "value": 42 }"#).unwrap();
    assert_eq!(parsed, expected);
}

#[test]
fn build_result_no_schema_returns_string_body_raw() {
    let tool = tool_with_output_schema(None);
    let r = result_of(&reply_msg(r#""hello, world""#), &tool, &None, vec![]);
    assert_eq!(text(&r, 0), "hello, world");
}

#[test]
fn build_result_with_object_schema_returns_structured() {
    let schema = r#"{ "type": "object", "properties": { "name": { "type": "string" } }, "required": ["name"] }"#;
    let tool = tool_with_output_schema(Some(schema));
    let r = result_of(&reply_msg(r#"{"name":"Alice"}"#), &tool, &None, vec![]);
    assert!(!is_error(&r));
    assert_eq!(structured(&r), r#"{"name":"Alice"}"#);
}

#[test]
fn build_result_coerces_via_schema_then_returns_structured() {
    let schema =
        r#"{ "type": "object", "properties": { "name": { "type": "string" }, "kv": { "type": "string" } } }"#;
    let tool = tool_with_output_schema(Some(schema));
    let msg = reply_msg(r#"{"name":"Alice","kv":{"k":1}}"#);
    let r = match build_mcp_result_from_message(&msg, &tool, &vec![]) {
        ReplyStep::Coerce { value, schema: to, meta } => {
            assert_eq!(value.to_text(), r#"{"kv":{"k":1},"name":"Alice"}"#);
            assert_eq!(Json::Object(to).to_text(), json(schema).to_text());
            // The object under `kv` becomes the text that the schema asks for.
            let coerced = match value {
                Json::Object(o) => {
                    let kv = o.get("kv").unwrap().to_text();
                    Json::Object(o.insert("kv".to_string(), Json::Str(kv)))
                }
                _ => panic!("expected an object"),
            };
            finish_mcp_result(Ok(coerced), &None, meta)
        }
        ReplyStep::Done(_) => panic!("expected a value to coerce"),
    };
    assert!(!is_error(&r));
    let value: serde_json::Value = serde_json::from_str(&structured(&r)).unwrap();
    assert_eq!(value["name"], serde_json::Value::String("Alice".to_string()));
    assert_eq!(value["kv"], serde_json::Value::String("{\"k\":1}".to_string()));
}

#[test]
fn build_result_with_oneof_wrapper_schema_and_validator_succeeds() {
    let schema = r#"{
        "type": "object",
        "properties": { "result": { "oneOf": [{ "type": "string" }, { "type": "null" }] } },
        "required": ["result"]
    }"#;
    let tool = tool_with_output_schema(Some(schema));
    let r = result_of(&reply_msg(r#""hello""#), &tool, &validator(schema), vec![]);
    assert!(!is_error(&r), "expected success, got error: {}", text(&r, 0));
    assert_eq!(structured(&r), r#"{"result":"hello"}"#);
}

#[test]
fn build_result_with_array_wrapper_schema_and_validator_succeeds() {
    let schema = r#"{
        "type": "object",
        "properties": { "users": { "type": "array", "items": { "type": "object" } } },
        "required": ["users"]
    }"#;
    let tool = tool_with_output_schema(Some(schema));
    let body = r#"[{"name":"Alice"},{"name":"Bob"}]"#;
    let r = result_of(&reply_msg(body), &tool, &validator(schema), vec![]);
    assert!(!is_error(&r), "expected success, got error: {}", text(&r, 0));
    assert_eq!(structured(&r), format!("{{\"users\":{body}}}"));
}

#[test]
fn build_result_with_validator_rejects_non_conformant() {
    let schema = r#"{ "type": "object", "properties": { "name": { "type": "string" } }, "required": ["name"] }"#;
    let tool = tool_with_output_schema(Some(schema));
    let r = result_of(&reply_msg(r#"{"wrong":"field"}"#), &tool, &validator(schema), vec![]);
    assert!(is_error(&r));
    let text = text(&r, 0);
    assert!(text.contains("does not conform to output-schema"), "unexpected error text: {text}");
}

#[test]
fn build_result_with_validator_accepts_conformant() {
    let schema = r#"{ "type": "object", "properties": { "name": { "type": "string" } }, "required": ["name"] }"#;
    let tool = tool_with_output_schema(Some(schema));
    let r = result_of(&reply_msg(r#"{"name":"Alice"}"#), &tool, &validator(schema), vec![]);
    assert!(!is_error(&r));
}

#[test]
fn build_result_invalid_json_body_is_error() {
    let tool = tool_with_output_schema(None);
    let r = result_of(&reply_msg("not json"), &tool, &None, vec![]);
    assert!(is_error(&r));
    let text = text(&r, 0);
    assert!(text.contains("reply body is not valid JSON"), "unexpected error text: {text}");
}

#[test]
fn build_result_propagates_result_meta_identity() {
    let tool = tool_with_output_schema(None);
    let msg = reply_with("{}", "x-ratelimit-remaining", "42");
    let r = result_of(&msg, &tool, &None, vec![entry("x-ratelimit-remaining")]);
    assert_eq!(meta_text(&r, "x-ratelimit-remaining").as_deref(), Some("\"42\""));
}

#[test]
fn build_result_propagates_result_meta_with_rename() {
    let tool = tool_with_output_schema(None);
    let msg = reply_with("{}", "x-ratelimit-remaining", "42");
    let propagate = vec![entry("x-ratelimit-remaining as com.example.tools/ratelimit-remaining")];
    let r = result_of(&msg, &tool, &None, propagate);
    assert_eq!(meta_text(&r, "com.example.tools/ratelimit-remaining").as_deref(), Some("\"42\""));
    assert!(meta_text(&r, "x-ratelimit-remaining").is_none());
}

#[test]
fn build_result_propagate_result_meta_skips_missing_headers() {
    let tool = tool_with_output_schema(None);
    let r = result_of(&reply_msg("{}"), &tool, &None, vec![entry("x-not-present")]);
    assert!(r.meta.is_none());
}

#[test]
fn build_result_propagate_result_meta_attaches_on_error_path() {
    let tool = tool_with_output_schema(None);
    let msg = reply_with("not json", "x-trace", "abc");
    let r = result_of(&msg, &tool, &None, vec![entry("x-trace")]);
    assert!(is_error(&r));
    assert_eq!(meta_text(&r, "x-trace").as_deref(), Some("\"abc\""));
}

#[test]
fn arguments_that_cannot_be_written_are_reported() {
    let r = draft_from_body(Err("boom".to_string()), None, &vec![]);
    assert_eq!(r.err().unwrap(), "failed to serialize MCP arguments: boom");
    let m = object(r#"{ "a": "1" }"#);
    let draft = draft_from_body(Ok(vec![1, 2]), Some(&m), &vec![entry("a as x"), entry("a as y")]).ok().unwrap();
    assert_eq!(draft.body, vec![1, 2]);
    assert_eq!(draft.headers, vec![pair("x", "1"), pair("y", "1")]);
}

#[test]
fn an_empty_reply_body_is_null() {
    let tool = tool_with_output_schema(None);
    let r = result_of(&reply_msg(""), &tool, &None, vec![]);
    assert!(!is_error(&r));
    assert_eq!(text(&r, 0), "null");
}

#[test]
fn text_of_a_reply_is_indented() {
    let tool = tool_with_output_schema(None);
    let r = result_of(&reply_msg(r#"{"a":[1]}"#), &tool, &None, vec![]);
    assert_eq!(text(&r, 0), "{\n  \"a\": [\n    1\n  ]\n}");
    assert!(r.structured_content.is_none());
}

#[test]
fn only_a_single_wrapping_property_wraps() {
    let coerced = |schema: &str, body: &str| match build_mcp_result_from_message(
        &reply_msg(body),
        &tool_with_output_schema(Some(schema)),
        &vec![],
    ) {
        ReplyStep::Coerce { value, .. } => value.to_text(),
        ReplyStep::Done(_) => panic!("expected a value to coerce"),
    };
    assert_eq!(coerced(r#"{ "properties": { "a": { "type": "array" }, "b": {} } }"#, "[1]"), "[1]");
    assert_eq!(coerced(r#"{ "properties": { "a": { "type": "string" } } }"#, "[1]"), "[1]");
    assert_eq!(coerced(r#"{ "properties": { "a": true } }"#, "[1]"), "[1]");
    assert_eq!(coerced(r#"{ "properties": [] }"#, "[1]"), "[1]");
    assert_eq!(coerced(r#"{}"#, "[1]"), "[1]");
    assert_eq!(coerced(r#"{ "properties": { "a": { "type": "array" } } }"#, "[1]"), r#"{"a":[1]}"#);
    assert_eq!(coerced(r#"{ "properties": { "a": { "oneOf": null } } }"#, ""), r#"{"a":null}"#);
}

#[test]
fn each_end_of_a_reply_has_its_words() {
    let tool = tool_with_output_schema(None);
    match result_from_value(Err("e".to_string()), &tool, None) {
        ReplyStep::Done(r) => assert_eq!(text(&r, 0), "reply body is not valid JSON: e"),
        ReplyStep::Coerce { .. } => panic!("expected a result"),
    }
    let r = finish_mcp_result(Err("e".to_string()), &None, Some(object(r#"{ "k": "v" }"#)));
    assert!(is_error(&r));
    assert_eq!(text(&r, 0), "failed to coerce reply body to output-schema: e");
    assert_eq!(meta_text(&r, "k").as_deref(), Some("\"v\""));
    let r = conclude_mcp_result(json("1"), Some("e".to_string()), Some(object(r#"{ "k": "v" }"#)));
    assert!(is_error(&r));
    assert_eq!(text(&r, 0), "reply body does not conform to output-schema: e");
    assert_eq!(meta_text(&r, "k").as_deref(), Some("\"v\""));
    let r = conclude_mcp_result(json(r#"{"a":1}"#), None, Some(object(r#"{ "k": "v" }"#)));
    assert!(!is_error(&r));
    assert_eq!(text(&r, 0), r#"{"a":1}"#);
    assert_eq!(structured(&r), r#"{"a":1}"#);
    assert_eq!(meta_text(&r, "k").as_deref(), Some("\"v\""));
    let r = apply_meta(r, None);
    assert_eq!(meta_text(&r, "k").as_deref(), Some("\"v\""));
}

#[test]
fn the_later_of_two_entries_with_one_target_stays() {
    let tool = tool_with_output_schema(None);
    let mut msg = reply_with("{}", "a", "1");
    msg.headers.push(pair("b", "2"));
    let r = result_of(&msg, &tool, &None, vec![entry("a as x"), entry("b as x"), entry("c as x")]);
    assert_eq!(meta_text(&r, "x").as_deref(), Some("\"2\""));
    assert_eq!(r.meta.as_ref().unwrap().len(), 1);
}

#[test]
fn named_headers_are_carried_on() {
    let headers = vec![pair("traceparent", "tp"), pair("other", "o"), pair("tracestate", "ts")];
    let names = vec!["traceparent".to_string(), "baggage".to_string(), "tracestate".to_string()];
    assert_eq!(propagated_headers(&headers, &names), vec![pair("traceparent", "tp"), pair("tracestate", "ts")]);
}

const ADD_TWO_INPUT: &str =
    r#"{ "type": "object", "properties": { "x": { "type": "integer" } }, "required": ["x"] }"#;

fn resolved(target: ResolvedToolTarget, output_schema: Option<&str>) -> ResolvedTool {
    ResolvedTool {
        tool: Tool {
            name: "calculator.add-two".to_string(),
            title: None,
            description: None,
            input_schema: object(ADD_TWO_INPUT),
            output_schema: output_schema.map(object),
            annotations: None,
            meta: None,
        },
        input_validator: validator(ADD_TWO_INPUT).unwrap(),
        output_validator: output_schema.and_then(validator),
        target,
        propagate_request_meta: vec![entry("com.example/tag as tag")],
        propagate_result_meta: vec![entry("x-left as com.example/left")],
    }
}

fn component() -> ResolvedToolTarget {
    ResolvedToolTarget::Component { component_name: "calculator".to_string() }
}

fn channel() -> ResolvedToolTarget {
    ResolvedToolTarget::Channel { channel: "work".to_string() }
}

fn server(tool: ResolvedTool, can_publish: bool) -> McpServer {
    McpServer::new(
        vec![("calculator.add-two".to_string(), tool)],
        can_publish,
        vec!["traceparent".to_string(), "tracestate".to_string()],
    )
}

fn done(call: ToolCall) -> CallToolResult {
    match call {
        ToolCall::Done(result) => result,
        _ => panic!("expected the end of the call"),
    }
}

#[test]
fn a_component_call_runs_to_its_result() {
    let server = server(resolved(component(), None), false);
    let tool = server.tool("calculator.add-two").unwrap();
    let m = object(r#"{ "com.example/tag": "blue" }"#);
    let call = server.begin_call("calculator.add-two", &object(r#"{ "x": 5 }"#), Some(&m));
    match &call {
        ToolCall::Build(draft) => {
            assert_eq!(draft.body, br#"{"x":5}"#.to_vec());
            assert_eq!(draft.headers, vec![pair("tag", "blue")]);
        }
        _ => panic!("expected a message to build"),
    }
    let built = vec![pair("content-type", "application/json"), pair("tag", "blue"), pair("traceparent", "tp")];
    let call = server.advance_call(tool, call, CallEvent::Built(built));
    assert!(matches!(&call, ToolCall::MapRequest { component_name, .. } if component_name == "calculator"));
    let call = server.advance_call(tool, call, CallEvent::RequestMapped(Ok(())));
    assert!(matches!(&call, ToolCall::Invoke { component_name, .. } if component_name == "calculator"));
    let call = server.advance_call(tool, call, CallEvent::Invoked(Ok(Some(json("7")))));
    match &call {
        ToolCall::MapReply { value, propagated } => {
            assert_eq!(value.to_text(), "7");
            assert_eq!(*propagated, vec![pair("traceparent", "tp")]);
        }
        _ => panic!("expected a reply to map"),
    }
    let call = server.advance_call(tool, call, CallEvent::Replied(Ok(reply_with("7", "x-left", "9"))));
    let r = done(call);
    assert!(!is_error(&r));
    assert_eq!(text(&r, 0), "7");
    assert_eq!(meta_text(&r, "com.example/left").as_deref(), Some("\"9\""));
}

#[test]
fn a_function_without_a_result_gives_null() {
    let server = server(resolved(component(), None), false);
    let tool = server.tool("calculator.add-two").unwrap();
    let call = ToolCall::Invoke { component_name: "calculator".to_string(), headers: vec![] };
    match server.advance_call(tool, call, CallEvent::Invoked(Ok(None))) {
        ToolCall::MapReply { value, propagated } => {
            assert_eq!(value.to_text(), "null");
            assert!(propagated.is_empty());
        }
        _ => panic!("expected a reply to map"),
    }
}

#[test]
fn a_channel_call_runs_to_its_result() {
    let schema = r#"{ "type": "object", "properties": { "sum": { "type": "integer" } }, "required": ["sum"] }"#;
    let server = server(resolved(channel(), Some(schema)), true);
    let tool = server.tool("calculator.add-two").unwrap();
    let call = server.begin_call("calculator.add-two", &object(r#"{ "x": 5 }"#), None);
    let call = server.advance_call(tool, call, CallEvent::Built(vec![]));
    assert!(matches!(&call, ToolCall::Publish { channel } if channel == "work"));
    let call = server.advance_call(tool, call, CallEvent::Published(Ok(())));
    assert!(matches!(&call, ToolCall::AwaitReply { channel } if channel == "work"));
    let call = server.advance_call(tool, call, CallEvent::Replied(Ok(reply_msg(r#"{"sum":7}"#))));
    let coerced = match &call {
        ToolCall::Coerce { value, schema: to, meta } => {
            assert_eq!(Json::Object(to.duplicate()).to_text(), json(schema).to_text());
            assert!(meta.is_none());
            value.duplicate()
        }
        _ => panic!("expected a value to coerce"),
    };
    let r = done(server.advance_call(tool, call, CallEvent::Coerced(Ok(coerced))));
    assert!(!is_error(&r));
    assert_eq!(structured(&r), r#"{"sum":7}"#);
}

#[test]
fn a_missing_required_parameter_is_refused() {
    let server = server(resolved(component(), None), false);
    let r = done(server.begin_call("calculator.add-two", &object("{}"), None));
    assert!(is_error(&r));
    assert!(text(&r, 0).contains("\"x\" is a required property"), "unexpected error: {}", text(&r, 0));
    assert_eq!(
        text(&r, 0),
        "Invalid arguments for tool 'calculator.add-two': \"x\" is a required property"
    );
    assert!(r.meta.is_none());
}

#[test]
fn an_unknown_tool_is_not_found() {
    let server = server(resolved(component(), None), false);
    let r = done(server.begin_call("nonexistent-tool", &object("{}"), None));
    assert!(is_error(&r));
    assert_eq!(text(&r, 0), "Tool not found: nonexistent-tool");
}

#[test]
fn each_failed_step_ends_the_call() {
    let server = server(resolved(component(), None), true);
    let tool = server.tool("calculator.add-two").unwrap();
    let failed = |call: ToolCall, event: CallEvent| {
        let r = done(server.advance_call(tool, call, event));
        assert!(is_error(&r));
        text(&r, 0)
    };
    let e = || "e".to_string();
    let name = || "calculator".to_string();
    let map_request = ToolCall::MapRequest { component_name: name(), headers: vec![] };
    assert_eq!(failed(map_request, CallEvent::RequestMapped(Err(e()))), "e");
    let invoke = ToolCall::Invoke { component_name: name(), headers: vec![] };
    assert_eq!(failed(invoke, CallEvent::Invoked(Err(e()))), "e");
    let map_reply = ToolCall::MapReply { value: Json::Null, propagated: vec![] };
    assert_eq!(failed(map_reply, CallEvent::Replied(Err(e()))), "e");
    let publish = ToolCall::Publish { channel: "c".to_string() };
    assert_eq!(failed(publish, CallEvent::Published(Err(e()))), "Failed to publish to channel 'c': e");
    let await_reply = ToolCall::AwaitReply { channel: "c".to_string() };
    assert_eq!(
        failed(await_reply, CallEvent::Replied(Err(e()))),
        "Failed to receive reply for request to channel 'c': e"
    );
    let coerce = ToolCall::Coerce { value: Json::Null, schema: object("{}"), meta: None };
    assert_eq!(
        failed(coerce, CallEvent::Coerced(Err(e()))),
        "failed to coerce reply body to output-schema: e"
    );
    assert_eq!(text(&done(admit_call("t", None, Err(e()))), 0), "e");
    assert_eq!(text(&done(admit_call("t", Some(e()), Err(e()))), 0), "Invalid arguments for tool 't': e");
}

#[test]
fn a_channel_needs_messaging() {
    let server = server(resolved(channel(), None), false);
    let tool = server.tool("calculator.add-two").unwrap();
    let call = server.begin_call("calculator.add-two", &object(r#"{ "x": 1 }"#), None);
    let r = done(server.advance_call(tool, call, CallEvent::Built(vec![])));
    assert!(is_error(&r));
    assert_eq!(text(&r, 0), "Channel-backed tools require messaging support");
}

#[test]
fn an_event_out_of_turn_changes_nothing() {
    let server = server(resolved(channel(), None), true);
    let tool = server.tool("calculator.add-two").unwrap();
    let call = ToolCall::Publish { channel: "work".to_string() };
    let call = server.advance_call(tool, call, CallEvent::Coerced(Ok(Json::Null)));
    assert!(matches!(&call, ToolCall::Publish { channel } if channel == "work"));
}

#[test]
fn tools_are_listed_once_under_each_name() {
    let one = resolved(component(), None);
    let mut two = resolved(channel(), None);
    two.tool.description = Some("later".to_string());
    let server = McpServer::new(
        vec![("a".to_string(), one), ("b".to_string(), resolved(component(), None)), ("a".to_string(), two)],
        false,
        vec![],
    );
    let tools = server.list_tools();
    assert_eq!(tools.len(), 2);
    assert_eq!(tools[0].description.as_deref(), Some("later"));
    assert!(tools[1].description.is_none());
    assert_eq!(tools[0].name, "calculator.add-two");
    assert_eq!(Json::Object(tools[1].input_schema.duplicate()).to_text(), json(ADD_TWO_INPUT).to_text());
    assert!(server.tool("c").is_none());
    assert!(matches!(&server.tool("a").unwrap().target, ResolvedToolTarget::Channel { .. }));
    assert_eq!(
        server.instructions(),
        "This server provides 2 tools. Each tool has typed inputs and outputs described by its schema. Call tools with their required parameters."
    );
}

#[test]
fn schemas_that_refer_to_what_cannot_be_had_do_not_compile() {
    let schema = r#"{ "allOf": [{ "$ref": "https://example.com/a" }, { "$ref": "https://example.com/b" }] }"#;
    assert!(SchemaValidator::compile(&json(schema)).is_err());
}

#[test]
fn repetitions_in_a_long_list_are_found() {
    let unique = validator(r#"{ "type": "array", "uniqueItems": true }"#).unwrap();
    let list = |last: &str| {
        let items: Vec<String> = (0..20).map(|i| i.to_string()).collect();
        json(&format!("[{}, {last}]", items.join(", ")))
    };
    assert!(unique.check(&list("20")).is_none());
    assert!(unique.check(&list("7")).is_some());
    assert!(unique.check(&list("7.0")).is_some());
}

#[test]
fn minus_zero_is_zero_where_items_are_compared() {
    let unique = validator(r#"{ "type": "array", "uniqueItems": true }"#).unwrap();
    assert!(unique.check(&json("[0, -0.0]")).is_some());
    assert!(unique.check(&json("[1, -0.0]")).is_none());
    let items: Vec<String> = (0..14).map(|i| i.to_string()).collect();
    assert!(unique.check(&json(&format!("[{}, -0.0]", items.join(", ")))).is_some());
    assert!(SchemaValidator::compile(&json(r#"{ "enum": [1, -0.0] }"#)).is_ok());
}

#[test]
fn minus_zero_in_a_call_is_judged_by_the_schema() {
    let input = r#"{ "type": "object", "properties": { "x": { "type": "number", "maximum": 0 } } }"#;
    let mut tool = resolved(component(), None);
    tool.input_validator = validator(input).unwrap();
    let zero = server(tool, false);
    let call = zero.begin_call("calculator.add-two", &object(r#"{ "x": -0.0 }"#), None);
    assert!(matches!(&call, ToolCall::Build(draft) if draft.body == br#"{"x":-0.0}"#.to_vec()));
    let positive = validator(r#"{ "type": "number", "minimum": 1 }"#);
    let r = finish_mcp_result(Ok(json("-0.0")), &positive, None);
    assert_eq!(text(&r, 0), "reply body does not conform to output-schema: -0.0 is less than the minimum of 1");
}

#[test]
fn skipped_entries_are_listed_with_their_values() {
    let m = object(r#"{ "io.example/a": { "nested": 1 }, "io.example/b": "ok", "io.example/c": null }"#);
    let propagate = vec![
        entry("io.example/c as c"),
        entry("io.example/b"),
        entry("io.example/missing"),
        entry("io.example/a"),
        entry("io.example/c"),
    ];
    let skipped: Vec<(String, String)> =
        skipped_request_meta(Some(&m), &propagate).into_iter().map(|(k, v)| (k, v.to_text())).collect();
    let expected = vec![
        pair("io.example/c", "null"),
        pair("io.example/a", r#"{"nested":1}"#),
        pair("io.example/c", "null"),
    ];
    assert_eq!(skipped, expected);
    assert!(skipped_request_meta(None, &propagate).is_empty());
    assert!(skipped_request_meta(Some(&m), &vec![]).is_empty());
}

#[test]
fn a_schema_that_is_none_does_not_compile() {
    assert!(SchemaValidator::compile(&json(r#"{ "type": 5 }"#)).is_err());
    let integers = validator(r#"{ "type": "integer" }"#).unwrap();
    assert!(integers.check(&json("5")).is_none());
    assert_eq!(integers.check(&json("\"x\"")).as_deref(), Some("\"x\" is not of type \"integer\""));
}

fn shown(attributes: &Attributes) -> Vec<String> {
    attributes
        .iter()
        .map(|(k, v)| match v {
            AttributeValue::Text(t) => format!("{k}={t}"),
            AttributeValue::Int(n) => format!("{k}#{n}"),
        })
        .collect()
}

#[test]
fn request_attributes_tell_where_a_request_came_from() {
    let bare = request_attributes("7", &None);
    assert_eq!(
        shown(&bare),
        vec!["jsonrpc.request.id=7", "network.transport=tcp", "network.protocol.name=http"]
    );
    let origin = Some(RequestOrigin {
        session_id: Some("s".to_string()),
        protocol_version: Some("2025-11-25".to_string()),
        client: Some(("10.0.0.1".to_string(), 65535)),
    });
    assert_eq!(
        shown(&request_attributes("7", &origin)),
        vec![
            "jsonrpc.request.id=7",
            "network.transport=tcp",
            "network.protocol.name=http",
            "mcp.session.id=s",
            "mcp.protocol.version=2025-11-25",
            "client.address=10.0.0.1",
            "client.port#65535"
        ]
    );
    assert_eq!(
        shown(&call_attributes("greet", bare)),
        vec![
            "gen_ai.operation.name=execute_tool",
            "gen_ai.tool.name=greet",
            "jsonrpc.request.id=7",
            "network.transport=tcp",
            "network.protocol.name=http"
        ]
    );
}

#[test]
fn spans_take_their_context_from_meta() {
    let names = vec!["traceparent".to_string(), "tracestate".to_string(), "baggage".to_string()];
    let m = object(r#"{ "traceparent": "tp", "tracestate": 5, "baggage": "b", "other": "o" }"#);
    let plan = plan_mcp_span("tools/call", Some("greet"), vec![], request_meta(&m), &names);
    assert_eq!(plan.name, "tools/call greet");
    assert_eq!(shown(&plan.attributes), vec!["mcp.method.name=tools/call"]);
    assert_eq!(plan.context, vec![pair("traceparent", "tp"), pair("baggage", "b")]);
    assert!(plan.has_parent);
    let context = span_context(plan.context, 0xabc, 0x1f, 1);
    assert_eq!(
        context,
        vec![pair("traceparent", "00-00000000000000000000000000000abc-000000000000001f-01"), pair("baggage", "b")]
    );

    assert!(request_meta(&object("{}")).is_none());
    let plan = plan_mcp_span("initialize", None, vec![], None, &names);
    assert_eq!(plan.name, "initialize");
    assert!(plan.context.is_empty());
    assert!(!plan.has_parent);
    assert_eq!(span_context(plan.context, 1, 2, 3).len(), 1);
}

#[test]
fn a_traceparent_is_padded_hexadecimal() {
    assert_eq!(
        traceparent(u128::MAX, u64::MAX, u8::MAX),
        "00-ffffffffffffffffffffffffffffffff-ffffffffffffffff-ff"
    );
    assert_eq!(traceparent(0, 0, 0), "00-00000000000000000000000000000000-0000000000000000-00");
    assert_eq!(
        traceparent(0x0af7651916cd43dd8448eb211c80319c, 0xb7ad6b7169203331, 1),
        "00-0af7651916cd43dd8448eb211c80319c-b7ad6b7169203331-01"
    );
}

#[test]
fn only_errors_mark_a_span() {
    assert!(is_span_error(&CallToolResult::failure("e".to_string())));
    assert!(!is_span_error(&CallToolResult::success(vec![])));
    assert!(is_span_error(&CallToolResult::structured_error(json("1"))));
    let mut unsaid = CallToolResult::structured(json("1"));
    unsaid.is_error = None;
    assert!(!is_span_error(&unsaid));
}

#[test]
fn the_protocol_chooses_how_spans_are_exported() {
    assert_eq!(otlp_transport("http/protobuf"), (OtlpTransport::Http, true));
    assert_eq!(otlp_transport("grpc"), (OtlpTransport::Grpc, true));
    assert_eq!(otlp_transport("carrier pigeon"), (OtlpTransport::Grpc, false));
}
