use toolbelt::json::{Json, JsonObject};
use toolbelt::mcp::{CallToolResult, RawContent, ResourceContents, Role, Timestamp};
use toolbelt::tools::{
    call_tool_result, dropped_audio_meta, exports_tool, input_schema_from, json_from_parsed,
    last_modified_from_parsed, meta, meta_entries, schema_from_parsed, tool_from_metadata, CALL_FUNCTION, METADATA_FUNCTION, TOOL_EXPORT,
};

fn json(text: &str) -> Json {
    Json::parse(text).unwrap_or_else(|e| panic!("not JSON: {e}"))
}

fn object(text: &str) -> JsonObject {
    match json(text) {
        Json::Object(o) => o,
        _ => panic!("not an object: {text}"),
    }
}

// What `tool.metadata()` on the tool-adapter example returns.
fn greeter_metadata() -> JsonObject {
    object(
        r#"{
            "name": "greeter.greet",
            "title": null,
            "description": "Greets someone by name",
            "input-schema": "{\"type\":\"object\",\"properties\":{\"name\":{\"type\":\"string\"}},\"required\":[\"name\"]}",
            "output-schema": "{\"type\":\"string\"}",
            "annotations": null,
            "meta": []
        }"#,
    )
}

// What `tool.call()` on the tool-adapter example returns.
fn greeter_result() -> JsonObject {
    object(
        r#"{
            "content": [{
                "type": "text",
                "value": { "text": "\"Hello World!\"", "annotations": null, "meta": [] }
            }],
            "is-error": false,
            "structured-content": "\"Hello World!\"",
            "meta": []
        }"#,
    )
}

fn with(value: JsonObject, field: &str, text: &str) -> JsonObject {
    value.insert(field.to_string(), json(text))
}

fn text_under(object: &JsonObject, key: &str) -> Option<String> {
    object.get(key).map(|v| v.to_text())
}

fn refused_tool(field: &str, text: &str) -> String {
    tool_from_metadata(&Json::Object(with(greeter_metadata(), field, text)), "greet").err().unwrap()
}

fn refused_result(field: &str, text: &str) -> String {
    call_tool_result(&Json::Object(with(greeter_result(), field, text))).err().unwrap()
}

fn refused_block(block: &str) -> String {
    refused_result("content", &format!("[{block}]"))
}

fn refused_annotations(annotations: &str) -> String {
    refused_block(&format!(r#"{{ "type": "text", "value": {{ "text": "t", "annotations": {annotations} }} }}"#))
}

fn result_with_content(content: &str) -> CallToolResult {
    let value = with(with(greeter_result(), "structured-content", "null"), "content", content);
    call_tool_result(&Json::Object(value)).unwrap_or_else(|e| panic!("{e}"))
}

#[test]
fn metadata_maps_onto_a_tool() {
    let tool = tool_from_metadata(&Json::Object(greeter_metadata()), "greet").ok().unwrap();
    assert_eq!(tool.description.as_deref(), Some("Greets someone by name"));
    assert_eq!(text_under(&tool.input_schema, "type").as_deref(), Some("\"object\""));
    assert!(tool.input_schema.get("properties").is_some());
    assert_eq!(text_under(tool.output_schema.as_ref().unwrap(), "type").as_deref(), Some("\"string\""));
    assert!(tool.title.is_none());
    assert!(tool.annotations.is_none());
    assert!(tool.meta.is_none());
}

#[test]
fn only_the_name_is_overridden() {
    let tool = tool_from_metadata(&Json::Object(greeter_metadata()), "greet").ok().unwrap();
    assert_eq!(tool.name, "greet");
}

#[test]
fn a_schema_must_be_a_json_object() {
    let err = refused_tool("input-schema", r#""\"just a string\"""#);
    assert!(err.contains("must be a JSON Schema object"), "unexpected error: {err}");
}

#[test]
fn an_input_schema_must_describe_an_object() {
    let err = refused_tool("input-schema", r#""{\"type\":\"string\"}""#);
    assert!(err.contains("must be of type object"), "unexpected error: {err}");

    // A schema with no root type does not describe an object either.
    let err = refused_tool("input-schema", r#""{\"properties\":{}}""#);
    assert!(err.contains("must declare type object"), "unexpected error: {err}");
}

#[test]
fn an_output_schema_need_not_describe_an_object() {
    let tool = tool_from_metadata(&Json::Object(greeter_metadata()), "greet").ok().unwrap();
    assert_eq!(text_under(&tool.output_schema.unwrap(), "type").as_deref(), Some("\"string\""));
}

#[test]
fn an_absent_output_schema_stays_absent() {
    let value = with(greeter_metadata(), "output-schema", "null");
    let tool = tool_from_metadata(&Json::Object(value), "greet").ok().unwrap();
    assert!(tool.output_schema.is_none());
}

#[test]
fn annotations_and_meta_pass_through() {
    let value = with(greeter_metadata(), "title", r#""Greeter""#);
    let value = with(
        value,
        "annotations",
        r#"{
            "title": "Greet",
            "read-only-hint": true,
            "destructive-hint": null,
            "idempotent-hint": true,
            "open-world-hint": false
        }"#,
    );
    let value = with(value, "meta", r#"[["com.example/owner", "search"]]"#);
    let tool = tool_from_metadata(&Json::Object(value), "greet").ok().unwrap();
    assert_eq!(tool.title.as_deref(), Some("Greeter"));
    let annotations = tool.annotations.unwrap();
    assert_eq!(annotations.title.as_deref(), Some("Greet"));
    assert_eq!(annotations.read_only_hint, Some(true));
    assert_eq!(annotations.destructive_hint, None);
    assert_eq!(annotations.idempotent_hint, Some(true));
    assert_eq!(annotations.open_world_hint, Some(false));
    assert_eq!(text_under(&tool.meta.unwrap(), "com.example/owner").as_deref(), Some("\"search\""));
}

#[test]
fn a_result_passes_through() {
    let result = call_tool_result(&Json::Object(greeter_result())).ok().unwrap();
    assert_eq!(result.is_error, Some(false));
    match &result.content[0].raw {
        RawContent::Text(t) => assert_eq!(t.text, "\"Hello World!\""),
        _ => panic!("expected text"),
    }
    // `structured-content` holds JSON text, so it arrives parsed.
    assert_eq!(result.structured_content.as_ref().unwrap().as_str(), Some("Hello World!"));
    assert!(result.meta.is_none());
}

#[test]
fn an_in_band_error_passes_through() {
    let value = with(with(greeter_result(), "is-error", "true"), "structured-content", "null");
    let result = call_tool_result(&Json::Object(value)).ok().unwrap();
    assert_eq!(result.is_error, Some(true));
    assert!(result.structured_content.is_none());
}

#[test]
fn result_meta_passes_through() {
    let value = with(greeter_result(), "meta", r#"[["x-count", "3"]]"#);
    let result = call_tool_result(&Json::Object(value)).ok().unwrap();
    assert_eq!(text_under(&result.meta.unwrap(), "x-count").as_deref(), Some("\"3\""));
}

#[test]
fn every_content_case_is_read() {
    let result = result_with_content(
        r#"[
            { "type": "text", "value": { "text": "t", "annotations": null, "meta": [] } },
            { "type": "image", "value": { "data": "aGk=", "mime-type": "image/png", "annotations": null, "meta": [] } },
            { "type": "audio", "value": { "data": "aGk=", "mime-type": "audio/wav", "annotations": null, "meta": [] } },
            { "type": "resource-link", "value": { "uri": "file:///a", "name": "a", "description": null, "mime-type": null, "annotations": null, "meta": [] } },
            { "type": "resource", "value": {
                "resource-data": { "type": "text", "value": { "uri": "file:///b", "mime-type": null, "text": "b", "meta": [] } },
                "annotations": null,
                "meta": []
            } }
        ]"#,
    );
    assert_eq!(result.content.len(), 5);
    assert!(matches!(&result.content[0].raw, RawContent::Text(t) if t.text == "t"));
    assert!(matches!(&result.content[1].raw, RawContent::Image(i) if i.mime_type == "image/png"));
    let RawContent::Audio(audio) = &result.content[2].raw else {
        panic!("expected audio content");
    };
    assert_eq!(audio.mime_type, "audio/wav");
    assert!(matches!(&result.content[3].raw, RawContent::ResourceLink(l) if l.uri == "file:///a"));
    assert!(matches!(&result.content[4].raw, RawContent::Resource(_)));
}

#[test]
fn content_annotations_are_read() {
    let result = result_with_content(
        r#"[{
            "type": "text",
            "value": {
                "text": "t",
                "annotations": {
                    "audience": ["user", "assistant"],
                    "priority": 0.5,
                    "last-modified": "2026-09-16T00:00:00Z"
                },
                "meta": []
            }
        }]"#,
    );
    let annotations = result.content[0].annotations.as_ref().unwrap();
    assert_eq!(annotations.audience.as_deref(), Some([Role::User, Role::Assistant].as_slice()));
    assert_eq!(annotations.priority.as_ref().and_then(|p| p.as_f64()), Some(0.5));
    assert!(annotations.last_modified.is_some());
    assert_eq!(annotations.last_modified, Some(Timestamp { seconds: 1_789_516_800, nanoseconds: 0 }));
}

#[test]
fn a_priority_out_of_range_is_an_error() {
    let with_priority = |priority: &str| {
        let content = format!(
            r#"[{{ "type": "text", "value": {{ "text": "t",
                "annotations": {{ "audience": null, "priority": {priority}, "last-modified": null }}, "meta": [] }} }}]"#
        );
        let value = with(with(greeter_result(), "structured-content", "null"), "content", &content);
        call_tool_result(&Json::Object(value))
    };
    // The bounds are inclusive.
    assert!(with_priority("0.0").is_ok());
    assert!(with_priority("1.0").is_ok());

    let err = with_priority("1.5").err().unwrap();
    assert!(err.contains("between 0 and 1"), "unexpected error: {err}");
    assert!(with_priority("-0.1").is_err());

    assert!(with_priority("-0.0").is_ok());
    assert!(with_priority("1").is_ok());
    assert!(with_priority("0").is_ok());
    assert_eq!(with_priority("2").err().unwrap(), "'priority' must be between 0 and 1, got 2");
    assert_eq!(with_priority("-3").err().unwrap(), "'priority' must be between 0 and 1, got -3");
    assert_eq!(with_priority("1.5").err().unwrap(), "'priority' must be between 0 and 1, got 1.5");
    assert!(with_priority("\"high\"").is_ok());
}

#[test]
fn meta_entries_are_pairs() {
    let value = meta_entries(vec![("traceparent".to_string(), "00-abc".to_string())]);
    assert_eq!(value.to_text(), r#"[["traceparent","00-abc"]]"#);
}

#[test]
fn no_meta_entries_is_an_empty_list() {
    assert_eq!(meta_entries(vec![]).to_text(), "[]");
}

#[test]
fn exports_matching_includes_the_version_separator() {
    // `composable:tools/toolset` also starts with `composable:tools/tool`.
    assert!("composable:tools/tool@0.2.0".starts_with(TOOL_EXPORT));
    assert!(!"composable:tools/toolset@0.2.0".starts_with(TOOL_EXPORT));
    assert!(exports_tool(&vec!["a".to_string(), "composable:tools/tool@0.2.0".to_string()]));
    assert!(!exports_tool(&vec!["composable:tools/toolset@0.2.0".to_string()]));
    assert!(!exports_tool(&vec![]));
    assert_eq!(METADATA_FUNCTION, "tool.metadata");
    assert_eq!(CALL_FUNCTION, "tool.call");
}

#[test]
fn metadata_that_is_wrong_is_refused() {
    assert_eq!(tool_from_metadata(&json("5"), "t").err().unwrap(), "tool-metadata must be an object, got a number");
    assert_eq!(refused_tool("description", "5"), "'description' must be a string, got a number");
    assert_eq!(refused_tool("title", "[]"), "'title' must be a string, got a list");
    assert_eq!(refused_tool("input-schema", "{}"), "'input-schema' must be a JSON string");
    assert_eq!(
        refused_tool("input-schema", r#""[]""#),
        "'input-schema' must be a JSON Schema object, got a list"
    );
    assert_eq!(
        refused_tool("input-schema", r#""{\"type\":\"array\"}""#),
        "'input-schema' must be of type object, got array"
    );
    assert_eq!(refused_tool("output-schema", "true"), "'output-schema' must be a JSON string");
    assert_eq!(
        refused_tool("output-schema", r#""null""#),
        "'output-schema' must be a JSON Schema object, got null"
    );
    assert_eq!(refused_tool("annotations", "1"), "tool-annotations must be an object, got a number");
    assert_eq!(refused_tool("annotations", r#"{ "title": 1 }"#), "'title' must be a string, got a number");
    assert_eq!(refused_tool("meta", "{}"), "meta must be a list, got an object");
    assert_eq!(refused_tool("meta", "[1]"), "meta entry must be a pair, got a number");
    assert_eq!(
        refused_tool("meta", r#"[["a", "b", "c", 1, 2, 3, 4, 5, 6, 7, 8, 9]]"#),
        "meta entry must hold exactly two elements, got 12"
    );
    assert_eq!(refused_tool("meta", "[[1, \"b\"]]"), "meta key must be a string, got a number");
    assert_eq!(refused_tool("meta", "[[\"a\", true]]"), "meta value must be a string, got a boolean");
}

#[test]
fn results_that_are_wrong_are_refused() {
    assert_eq!(call_tool_result(&json("\"x\"")).err().unwrap(), "call-tool-result must be an object, got a string");
    assert_eq!(refused_result("content", "5"), "content must be a list, got a number");
    assert_eq!(refused_result("is-error", "null"), "'is-error' must be a boolean");
    assert_eq!(refused_result("structured-content", "{}"), "'structured-content' must be a JSON string, got an object");
    assert!(refused_result("structured-content", "\"{\"").starts_with("'structured-content' is not valid JSON: "));
    assert_eq!(refused_result("meta", "5"), "meta must be a list, got a number");
}

#[test]
fn blocks_that_are_wrong_are_refused() {
    assert_eq!(refused_block("1"), "content-block must be an object, got a number");
    assert_eq!(refused_block("{}"), "content-block needs a \"type\" naming its case");
    assert_eq!(refused_block(r#"{ "type": "text" }"#), "content-block case 'text' needs a \"value\"");
    assert_eq!(refused_block(r#"{ "type": "video", "value": {} }"#), "unknown content-block case 'video'");
    assert_eq!(refused_block(r#"{ "type": "text", "value": 1 }"#), "text-content must be an object, got a number");
    assert_eq!(refused_block(r#"{ "type": "text", "value": {} }"#), "'text' must be a string");
    assert_eq!(refused_block(r#"{ "type": "image", "value": 1 }"#), "image-content must be an object, got a number");
    assert_eq!(refused_block(r#"{ "type": "image", "value": { "data": "" } }"#), "'mime-type' must be a string");
    assert_eq!(refused_block(r#"{ "type": "audio", "value": 1 }"#), "audio-content must be an object, got a number");
    assert_eq!(
        refused_block(r#"{ "type": "audio", "value": { "meta": 1 } }"#),
        "meta must be a list, got a number"
    );
    assert_eq!(
        refused_block(r#"{ "type": "resource-link", "value": 1 }"#),
        "resource-link must be an object, got a number"
    );
    assert_eq!(refused_block(r#"{ "type": "resource-link", "value": {} }"#), "'uri' must be a string");
    assert_eq!(
        refused_block(r#"{ "type": "resource", "value": 1 }"#),
        "embedded-resource must be an object, got a number"
    );
    assert_eq!(
        refused_block(r#"{ "type": "resource", "value": {} }"#),
        "embedded-resource needs \"resource-data\""
    );
    let resource =
        |data: &str| refused_block(&format!(r#"{{ "type": "resource", "value": {{ "resource-data": {data} }} }}"#));
    assert_eq!(resource("1"), "resource-contents must be an object, got a number");
    assert_eq!(resource("{}"), "resource-contents needs a \"type\" naming its case");
    assert_eq!(resource(r#"{ "type": "text" }"#), "resource-contents case 'text' needs a \"value\"");
    assert_eq!(
        resource(r#"{ "type": "text", "value": 1 }"#),
        "resource-contents payload must be an object, got a number"
    );
    assert_eq!(resource(r#"{ "type": "x", "value": {} }"#), "unknown resource-contents case 'x'");
    assert_eq!(resource(r#"{ "type": "blob", "value": { "uri": "u" } }"#), "'blob' must be a string");
}

#[test]
fn annotations_that_are_wrong_are_refused() {
    assert_eq!(refused_annotations("1"), "annotations must be an object, got a number");
    assert_eq!(refused_annotations(r#"{ "audience": 1 }"#), "audience must be a list, got a number");
    assert_eq!(refused_annotations(r#"{ "audience": ["user", "robot"] }"#), "unknown role 'robot'");
    assert_eq!(refused_annotations(r#"{ "audience": [null] }"#), "role must be a string, got null");
    assert_eq!(refused_annotations(r#"{ "last-modified": 1 }"#), "'last-modified' must be a string, got a number");
    assert!(refused_annotations(r#"{ "last-modified": "yesterday" }"#)
        .starts_with("'last-modified' is not an ISO 8601 timestamp: "));
}

#[test]
fn the_parts_of_content_are_kept() {
    let result = result_with_content(
        r#"[
            { "type": "resource-link", "value": { "uri": "u", "meta": [["k", "v"]] } },
            { "type": "resource", "value": {
                "resource-data": { "type": "blob", "value": { "uri": "u", "mime-type": "m", "blob": "YQ==", "meta": [["k", "v"]] } }
            } },
            { "type": "image", "value": { "data": "d", "mime-type": "m", "meta": [["k", "1"], ["k", "2"]] } }
        ]"#,
    );
    match &result.content[0].raw {
        RawContent::ResourceLink(link) => {
            assert_eq!(link.name, "");
            assert!(link.description.is_none());
            assert!(link.mime_type.is_none());
            assert_eq!(text_under(link.meta.as_ref().unwrap(), "k").as_deref(), Some("\"v\""));
        }
        _ => panic!("expected a link"),
    }
    match &result.content[1].raw {
        RawContent::Resource(embedded) => match &embedded.resource {
            ResourceContents::Blob { uri, mime_type, blob, meta } => {
                assert_eq!(uri, "u");
                assert_eq!(mime_type.as_deref(), Some("m"));
                assert_eq!(blob, "YQ==");
                assert_eq!(text_under(meta.as_ref().unwrap(), "k").as_deref(), Some("\"v\""));
            }
            _ => panic!("expected a blob"),
        },
        _ => panic!("expected a resource"),
    }
    match &result.content[2].raw {
        RawContent::Image(image) => {
            assert_eq!(text_under(image.meta.as_ref().unwrap(), "k").as_deref(), Some("\"2\""));
        }
        _ => panic!("expected an image"),
    }
}

#[test]
fn structured_content_takes_the_place_of_content() {
    let value = with(greeter_result(), "structured-content", r#""{\"b\":1,\"a\":[true]}""#);
    let result = call_tool_result(&Json::Object(value)).ok().unwrap();
    assert_eq!(result.content.len(), 1);
    assert!(matches!(&result.content[0].raw, RawContent::Text(t) if t.text == r#"{"a":[true],"b":1}"#));
    let value = with(with(greeter_result(), "is-error", "true"), "structured-content", r#""1""#);
    let result = call_tool_result(&Json::Object(value)).ok().unwrap();
    assert_eq!(result.is_error, Some(true));
    assert_eq!(result.structured_content.unwrap().to_text(), "1");
}

#[test]
fn sent_entries_are_read_as_meta() {
    let entries = vec![
        ("a".to_string(), "1".to_string()),
        ("b".to_string(), "2".to_string()),
        ("a".to_string(), "3".to_string()),
    ];
    let value = greeter_result().insert("meta".to_string(), meta_entries(entries));
    let meta = call_tool_result(&Json::Object(value)).ok().unwrap().meta.unwrap();
    assert_eq!(Json::Object(meta).to_text(), r#"{"a":"3","b":"2"}"#);
}

#[test]
fn what_parsing_gave_is_taken_in() {
    assert_eq!(json_from_parsed("f", Ok(json("1"))).ok().unwrap().unwrap().to_text(), "1");
    assert_eq!(json_from_parsed("f", Err("e".to_string())).err().unwrap(), "'f' is not valid JSON: e");
    assert_eq!(schema_from_parsed("f", Ok(json("1"))).err().unwrap(), "'f' must be a JSON Schema object, got a number");
    assert_eq!(schema_from_parsed("f", Err("e".to_string())).err().unwrap(), "'f' is not valid JSON: e");
    assert!(schema_from_parsed("f", Ok(json("{}"))).is_ok());
    assert_eq!(input_schema_from("f", object("{}")).err().unwrap(), "'f' must declare type object");
    assert!(input_schema_from("f", object(r#"{ "type": "object" }"#)).is_ok());
    let time = Timestamp { seconds: -5, nanoseconds: 7 };
    assert_eq!(last_modified_from_parsed(Ok(time)).ok().unwrap(), Some(time));
    assert_eq!(
        last_modified_from_parsed(Err("e".to_string())).err().unwrap(),
        "'last-modified' is not an ISO 8601 timestamp: e"
    );
}

#[test]
fn dropped_audio_metadata_are_counted() {
    let dropped = |content: &str| dropped_audio_meta(&Json::Object(with(greeter_result(), "content", content)));
    let audio = |meta: &str| {
        format!(r#"{{ "type": "audio", "value": {{ "data": "", "mime-type": "audio/wav", "meta": {meta} }} }}"#)
    };
    let with_meta = audio(r#"[["a", "b"]]"#);
    let text = r#"{ "type": "text", "value": { "text": "t", "meta": [["a", "b"]] } }"#;
    assert_eq!(dropped("[]"), 0);
    assert_eq!(dropped("null"), 0);
    assert_eq!(dropped("1"), 0);
    assert_eq!(dropped(&format!("[{}, {}, {text}]", audio("[]"), audio("null"))), 0);
    assert_eq!(dropped(&format!("[{with_meta}, {text}, {with_meta}]")), 2);
    // What follows a block that is refused is not read.
    assert_eq!(dropped(&format!("[{with_meta}, 1, {with_meta}]")), 1);
    assert_eq!(dropped(&format!("[{}, {with_meta}]", audio("1"))), 0);
    assert_eq!(dropped(r#"[{ "type": "audio", "value": { "meta": [["a", "b"]] } }]"#), 1);
    assert_eq!(dropped_audio_meta(&json("[]")), 0);
}

#[test]
fn meta_is_read_from_pairs_of_texts() {
    assert!(meta(None).ok().unwrap().is_none());
    assert!(meta(Some(&Json::Null)).ok().unwrap().is_none());
    assert!(meta(Some(&meta_entries(vec![]))).ok().unwrap().is_none());
    let sent = meta_entries(vec![("b".to_string(), "1".to_string()), ("a".to_string(), "2".to_string())]);
    assert_eq!(Json::Object(meta(Some(&sent)).ok().unwrap().unwrap()).to_text(), r#"{"a":"2","b":"1"}"#);
    assert_eq!(meta(Some(&json("{}"))).err().unwrap(), "meta must be a list, got an object");
    assert_eq!(
        meta(Some(&json(r#"[["a", "b"], ["c"]]"#))).err().unwrap(),
        "meta entry must hold exactly two elements, got 1"
    );
}
