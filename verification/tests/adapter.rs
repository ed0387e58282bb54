use toolbelt::adapter::{
    annotations, call, config, config_flag, filtered_input_schema, filtered_output_schema, header_mapping,
    is_object_schema, is_structured, mapping_config, metadata, prune_parsed, prune_schema, reportable_output_schema,
    structures_any_json, text, without_properties, Config, FunctionMetadata, InvokeError, Response,
    ANY_STRUCTURED_CONTENT, DEFAULT_SPEC_VERSION, SERVER_ERROR,
};
use toolbelt::json::{Json, JsonObject};

fn pair(key: &str, value: &str) -> (String, String) {
    (key.to_string(), value.to_string())
}

fn store(entries: &[(&str, &str)]) -> Config {
    let all: Vec<(String, String)> = entries.iter().map(|(k, v)| pair(k, v)).collect();
    Config { values: all.clone(), listing: all }
}

fn object(text: &str) -> JsonObject {
    match Json::parse(text) {
        Ok(Json::Object(o)) => o,
        _ => panic!("not an object: {text}"),
    }
}

fn function() -> FunctionMetadata {
    FunctionMetadata {
        name: "greeter.greet".to_string(),
        description: Some("Greets".to_string()),
        input_schema: r#"{"type":"object","properties":{"name":{"type":"string"},"tag":{"type":"string"}},"required":["name","tag"]}"#
            .to_string(),
        output_schema: r#"{"type":"object","properties":{"greeting":{},"left":{}},"required":["greeting","left"]}"#
            .to_string(),
    }
}

#[test]
fn config_values_are_looked_up() {
    let s = store(&[("a", "1"), ("b", "true"), ("c", "false"), ("d", "True")]);
    assert_eq!(config(&s, "a").as_deref(), Some("1"));
    assert_eq!(config(&s, "z"), None);
    assert_eq!(config_flag(&s, "a"), None);
    assert_eq!(config_flag(&s, "b"), Some(true));
    assert_eq!(config_flag(&s, "c"), Some(false));
    assert_eq!(config_flag(&s, "d"), None);
    assert_eq!(config_flag(&s, "z"), None);
}

#[test]
fn mappings_are_the_entries_under_a_prefix() {
    let s = store(&[
        ("request-meta.tag", "com.example/tag"),
        ("response-meta.com.example/left", "left"),
        ("request-meta.", "whole"),
        ("request-meta", "none"),
        ("request-meta.tag", "com.example/other"),
    ]);
    assert_eq!(mapping_config(&s, "request-meta."), vec![pair("tag", "com.example/other"), pair("", "whole")]);
    let mapping = header_mapping(&s);
    assert_eq!(mapping.request_headers.len(), 2);
    assert_eq!(mapping.response_headers, vec![pair("com.example/left", "left")]);
    let unlisted = Config { values: vec![pair("request-meta.tag", "x")], listing: vec![] };
    assert!(mapping_config(&unlisted, "request-meta.").is_empty());
}

#[test]
fn named_properties_leave_a_schema() {
    let schema = r#"{ "required": ["a", "b", 1], "properties": { "a": {}, "b": { "x": 1 } }, "type": "object" }"#;
    assert_eq!(
        without_properties(schema.to_string(), &vec!["a", "c"]),
        r#"{"properties":{"b":{"x":1}},"required":["b",1],"type":"object"}"#
    );
    assert_eq!(without_properties(schema.to_string(), &vec![]), schema);
    assert_eq!(without_properties("[1, 2]".to_string(), &vec!["a"]), "[1, 2]");
    assert_eq!(without_properties("{ nonsense".to_string(), &vec!["a"]), "{ nonsense");
    assert_eq!(
        without_properties(r#"{ "properties": [ "a" ], "required": "a" }"#.to_string(), &vec!["a"]),
        r#"{"properties":["a"],"required":"a"}"#
    );
    assert_eq!(prune_parsed("s".to_string(), Err("e".to_string()), &vec!["a"]), "s");
    let pruned = prune_schema(object(schema), &vec!["b"]);
    assert_eq!(Json::Object(pruned).to_text(), r#"{"properties":{"a":{}},"required":["a",1],"type":"object"}"#);
}

#[test]
fn schemas_leave_out_what_goes_through_meta() {
    let s = store(&[("request-meta.tag", "com.example/tag"), ("response-meta.com.example/left", "left")]);
    let mapping = header_mapping(&s);
    assert_eq!(
        filtered_input_schema(function().input_schema, &mapping),
        r#"{"properties":{"name":{"type":"string"}},"required":["name"],"type":"object"}"#
    );
    assert_eq!(
        filtered_output_schema(function().output_schema, &mapping),
        r#"{"properties":{"greeting":{}},"required":["greeting"],"type":"object"}"#
    );
}

#[test]
fn the_spec_version_decides_on_output_schemas() {
    assert_eq!(DEFAULT_SPEC_VERSION, "2025-06-18");
    assert_eq!(ANY_STRUCTURED_CONTENT, "2026-07-28");
    let version = |v: &str| structures_any_json(&store(&[("spec-version", v)]));
    assert!(!structures_any_json(&store(&[])));
    assert!(!version("2025-06-18"));
    assert!(!version("2026-07-27"));
    assert!(version("2026-07-28"));
    assert!(version("2026-07-28x"));
    assert!(version("2027-01-01"));
    assert!(!version(""));

    let old = store(&[]);
    let new = store(&[("spec-version", "2026-07-28")]);
    let string = r#"{"type":"string"}"#.to_string();
    let object = r#"{"type":"object"}"#.to_string();
    assert_eq!(reportable_output_schema(&old, string.clone()), None);
    assert_eq!(reportable_output_schema(&new, string.clone()), Some(string));
    assert_eq!(reportable_output_schema(&old, object.clone()), Some(object));
    assert_eq!(reportable_output_schema(&old, "?".to_string()), None);
    assert_eq!(reportable_output_schema(&new, "?".to_string()).as_deref(), Some("?"));
    assert!(is_object_schema(&Json::parse(r#"{"type":"object"}"#)));
    assert!(!is_object_schema(&Json::parse("[]")));
    assert!(!is_object_schema(&Err("e".to_string())));
}

#[test]
fn annotations_are_there_if_one_is_set() {
    assert!(annotations(&store(&[])).is_none());
    assert!(annotations(&store(&[("read-only-hint", "maybe")])).is_none());
    let a = annotations(&store(&[("title", "T"), ("destructive-hint", "false"), ("open-world-hint", "true")])).unwrap();
    assert_eq!(a.title.as_deref(), Some("T"));
    assert_eq!(a.read_only_hint, None);
    assert_eq!(a.destructive_hint, Some(false));
    assert_eq!(a.idempotent_hint, None);
    assert_eq!(a.open_world_hint, Some(true));
    assert_eq!(annotations(&store(&[("idempotent-hint", "true")])).unwrap().idempotent_hint, Some(true));
}

#[test]
fn metadata_come_from_the_function_and_config() {
    let tool = metadata(&store(&[]), Ok(function())).ok().unwrap();
    assert_eq!(tool.name, "greeter.greet");
    assert_eq!(tool.title, None);
    assert_eq!(tool.description.as_deref(), Some("Greets"));
    assert_eq!(tool.input_schema, function().input_schema);
    assert_eq!(tool.output_schema, Some(function().output_schema));
    assert!(tool.annotations.is_none());
    assert!(tool.meta.is_empty());

    let s = store(&[
        ("name", "greet"),
        ("title", "Greeter"),
        ("description", "Says hello"),
        ("request-meta.tag", "com.example/tag"),
    ]);
    let tool = metadata(&s, Ok(function())).ok().unwrap();
    assert_eq!(tool.name, "greet");
    assert_eq!(tool.title.as_deref(), Some("Greeter"));
    assert_eq!(tool.description.as_deref(), Some("Says hello"));
    assert_eq!(
        tool.input_schema,
        r#"{"properties":{"name":{"type":"string"}},"required":["name"],"type":"object"}"#
    );
    assert_eq!(tool.annotations.unwrap().title.as_deref(), Some("Greeter"));

    assert_eq!(metadata(&s, Err("down".to_string())).err().unwrap(), "down");
}

#[test]
fn results_are_structured_where_a_schema_is_reported() {
    for s in [store(&[]), store(&[("spec-version", "2026-07-28")]), store(&[("response-meta.k", "left")])] {
        for schema in [
            r#"{"type":"string"}"#,
            r#"{"type":"object","properties":{"left":{}}}"#,
            r#"{"type":"object","properties":{"left":{"multipleOf":0.1},"x":{"maximum":1.5e300}}}"#,
            r#"{"type":"number","multipleOf":0.1}"#,
            "5",
        ] {
            let mut f = function();
            f.output_schema = schema.to_string();
            let mut g = function();
            g.output_schema = schema.to_string();
            let reported = metadata(&s, Ok(f)).ok().unwrap().output_schema.is_some();
            assert_eq!(is_structured(&s, Ok(g)), reported);
        }
    }
    assert!(!is_structured(&store(&[("spec-version", "2026-07-28")]), Err("e".to_string())));
}

#[test]
fn responses_are_text_and_structured_content() {
    let response = || Response { body: "{\"a\":1}".to_string(), headers: vec![pair("k", "v")] };
    let r = call(true, Ok(response())).ok().unwrap();
    assert_eq!(r.content.len(), 1);
    assert_eq!(r.content[0].text, "{\"a\":1}");
    assert!(!r.is_error);
    assert_eq!(r.structured_content.as_deref(), Some("{\"a\":1}"));
    assert_eq!(r.meta, vec![pair("k", "v")]);
    let r = call(false, Ok(response())).ok().unwrap();
    assert_eq!(r.content[0].text, "{\"a\":1}");
    assert!(r.structured_content.is_none());
}

#[test]
fn failures_of_the_function_are_in_band() {
    for error in [InvokeError::FailedCall("e".to_string()), InvokeError::InvalidResponse("e".to_string())] {
        let r = call(true, Err(error)).ok().unwrap();
        assert_eq!(r.content[0].text, "e");
        assert!(r.is_error);
        assert!(r.structured_content.is_none());
        assert!(r.meta.is_empty());
    }
    let e = call(true, Err(InvokeError::Other("e".to_string()))).err().unwrap();
    assert_eq!(e.code, -32000);
    assert_eq!(e.code, SERVER_ERROR);
    assert_eq!(e.message, "e");
    assert!(e.data.is_none());
    let block = text("t".to_string());
    assert_eq!(block.text, "t");
    assert!(block.annotations.is_none());
    assert!(block.meta.is_empty());
}
