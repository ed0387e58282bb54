use toolbelt::config::{
    default_server, parse_propagated_meta_list, shared_config, Answers, Halt, McpServerConfigHandler, PropagatedHeader,
    PropagationDirection, Question, Reading, ToolTarget,
};
use toolbelt::config::read::{bracket, kind_complaint};
use toolbelt::json::{Json, JsonObject};

fn object(text: &str) -> JsonObject {
    match Json::parse(text) {
        Ok(Json::Object(o)) => o,
        Ok(_) => panic!("not an object: {text}"),
        Err(e) => panic!("not JSON: {e}"),
    }
}

fn no_answers() -> Answers {
    Answers { selectors: vec![], param_encodings: vec![], result_decodings: vec![], propagations: vec![] }
}

// `source` or `source as target`.
fn header(entry: &str) -> PropagatedHeader {
    match entry.split_once(" as ") {
        Some((source, target)) => PropagatedHeader { source: source.to_string(), target: target.to_string() },
        None => PropagatedHeader { source: entry.to_string(), target: entry.to_string() },
    }
}

fn answer(answers: &mut Answers, question: Question) {
    match question {
        Question::Selector { expression } => answers.selectors.push((expression, None)),
        Question::ParamEncoding { tool, .. } => answers.param_encodings.push((tool, None)),
        Question::ResultDecoding { tool, .. } => answers.result_decodings.push((tool, None)),
        Question::Propagation { entry } => {
            let read = header(&entry);
            answers.propagations.push((entry, Reading::Header(read)));
        }
    }
}

// Reads a definition and answers every question that is asked on the way.
fn handle(handler: &mut McpServerConfigHandler, category: &str, name: &str, properties: &str) -> Result<(), String> {
    let properties = object(properties);
    let mut answers = no_answers();
    for _ in 0..100 {
        match handler.handle_category(category, name, &properties, &answers) {
            Ok(()) => return Ok(()),
            Err(Halt::Error(e)) => return Err(e),
            Err(Halt::Ask(question)) => answer(&mut answers, question),
        }
    }
    panic!("the same question again and again");
}

fn make_handler() -> McpServerConfigHandler {
    McpServerConfigHandler::new(shared_config())
}

fn read(name: &str, properties: &str) -> McpServerConfigHandler {
    let mut handler = make_handler();
    handle(&mut handler, "server", name, properties).unwrap();
    handler
}

fn refuse(properties: &str) -> String {
    let mut handler = make_handler();
    let err = handle(&mut handler, "server", "mcp", properties).unwrap_err();
    assert!(handler.servers().is_empty());
    err
}

#[test]
fn parse_basic_server() {
    let handler = read(
        "mcp",
        r#"{ "type": "mcp", "port": 3001, "tool": { "add-two": { "component": "math", "function": "add-two" } } }"#,
    );
    let servers = handler.servers();
    assert_eq!(servers.len(), 1);
    assert_eq!(servers[0].name, "mcp");
    assert_eq!(servers[0].host, "127.0.0.1");
    assert_eq!(servers[0].port, 3001);
    assert!(servers[0].allowed_origins.is_none());
    assert_eq!(servers[0].tools.len(), 1);
    assert_eq!(servers[0].tools[0].name, "add-two");
    assert!(
        matches!(&servers[0].tools[0].target, ToolTarget::Component { component, function, .. }
            if component == "math" && function == "add-two")
    );
    assert!(servers[0].tools[0].description.is_none());
}

#[test]
fn parse_server_with_all_options() {
    let handler = read(
        "api",
        r#"{
            "type": "mcp",
            "host": "0.0.0.0",
            "port": 8080,
            "allowed-origins": ["example.com", "localhost"],
            "tool": {
                "greet": {
                    "component": "greeter",
                    "function": "greet",
                    "description": "Greet someone by name"
                }
            }
        }"#,
    );
    let servers = handler.servers();
    assert_eq!(servers[0].host, "0.0.0.0");
    assert_eq!(servers[0].port, 8080);
    assert_eq!(
        servers[0].allowed_origins.as_deref(),
        Some(["example.com".to_string(), "localhost".to_string()].as_slice())
    );
    assert_eq!(servers[0].tools[0].description.as_deref(), Some("Greet someone by name"));
}

#[test]
fn missing_port() {
    let err = refuse(r#"{ "type": "mcp" }"#);
    assert!(err.contains("missing required 'port'"));
}

#[test]
fn function_without_component() {
    let err = refuse(r#"{ "type": "mcp", "port": 3001, "tool": { "bad": { "function": "do-stuff" } } }"#);
    assert!(err.contains("'function' but missing 'component'"), "unexpected error: {err}");
}

#[test]
fn component_without_function() {
    let err = refuse(r#"{ "type": "mcp", "port": 3001, "tool": { "bad": { "component": "math" } } }"#);
    assert!(err.contains("'component' but missing 'function'"), "unexpected error: {err}");
}

#[test]
fn no_component_no_channel() {
    let err = refuse(r#"{ "type": "mcp", "port": 3001, "tool": { "bad": { "description": "unreachable tool" } } }"#);
    assert!(err.contains("must have either"), "unexpected error: {err}");
}

#[test]
fn channel_and_component_conflict() {
    let err = refuse(
        r#"{
            "type": "mcp",
            "port": 3001,
            "tool": { "bad": { "component": "math", "function": "add", "channel": "work-queue" } }
        }"#,
    );
    assert!(err.contains("cannot have both"), "unexpected error: {err}");
}

#[test]
fn component_tool_with_param_and_result_mapping() {
    let handler = read(
        "mcp",
        r#"{
            "type": "mcp",
            "port": 3001,
            "tool": {
                "shaped": {
                    "component": "service",
                    "function": "fetch",
                    "param-mapping": { "url": "https://example.com/{id}" },
                    "result-mapping": { "data": "{body}" }
                }
            }
        }"#,
    );
    match &handler.servers()[0].tools[0].target {
        ToolTarget::Component { mapping, output_schema, .. } => {
            assert!(mapping.param_mapping.is_some());
            assert!(mapping.result_mapping.is_some());
            assert!(output_schema.is_none());
        }
        _ => panic!("expected Component target"),
    }
}

#[test]
fn component_tool_with_explicit_output_schema_allowed() {
    let handler = read(
        "mcp",
        r#"{
            "type": "mcp",
            "port": 3001,
            "tool": {
                "describe-add": {
                    "component": "math",
                    "function": "add-two",
                    "output-schema": { "type": "object", "properties": {} }
                }
            }
        }"#,
    );
    assert!(matches!(
        &handler.servers()[0].tools[0].target,
        ToolTarget::Component { output_schema: Some(_), .. }
    ));
}

#[test]
fn component_tool_with_explicit_input_schema_allowed() {
    let handler = read(
        "mcp",
        r#"{
            "type": "mcp",
            "port": 3001,
            "tool": {
                "add2": {
                    "component": "math",
                    "function": "add-two",
                    "input-schema": { "type": "object", "properties": {} }
                }
            }
        }"#,
    );
    assert!(matches!(
        &handler.servers()[0].tools[0].target,
        ToolTarget::Component { input_schema: Some(_), .. }
    ));
}

#[test]
fn channel_tool_with_mapping_is_error() {
    let err = refuse(
        r#"{
            "type": "mcp",
            "port": 3001,
            "tool": {
                "bad": {
                    "channel": "events",
                    "input-schema": { "type": "object" },
                    "param-mapping": { "x": "{body}" }
                }
            }
        }"#,
    );
    assert!(err.contains("apply to component-backed tools only"), "unexpected error: {err}");
}

#[test]
fn tool_with_propagate_request_meta() {
    let handler = read(
        "mcp",
        r#"{
            "type": "mcp",
            "port": 3001,
            "tool": {
                "propagator": {
                    "component": "c",
                    "function": "f",
                    "propagate-request-meta": ["com.example.x/foo", "com.example.y/bar as tracked-bar"]
                }
            }
        }"#,
    );
    let entries = &handler.servers()[0].tools[0].propagate_request_meta;
    assert_eq!(entries.len(), 2);
    assert_eq!(entries[0].source, "com.example.x/foo");
    assert_eq!(entries[0].target, "com.example.x/foo");
    assert_eq!(entries[1].source, "com.example.y/bar");
    assert_eq!(entries[1].target, "tracked-bar");
}

#[test]
fn tool_with_propagate_result_meta() {
    let handler = read(
        "mcp",
        r#"{
            "type": "mcp",
            "port": 3001,
            "tool": {
                "emitter": {
                    "component": "c",
                    "function": "f",
                    "propagate-result-meta": ["x-ratelimit-remaining as com.example.tools/ratelimit-remaining"]
                }
            }
        }"#,
    );
    let entries = &handler.servers()[0].tools[0].propagate_result_meta;
    assert_eq!(entries.len(), 1);
    assert_eq!(entries[0].source, "x-ratelimit-remaining");
    assert_eq!(entries[0].target, "com.example.tools/ratelimit-remaining");
}

#[test]
fn propagate_request_meta_non_string_entry_is_error() {
    let err = refuse(
        r#"{
            "type": "mcp",
            "port": 3001,
            "tool": { "bad": { "component": "c", "function": "f", "propagate-request-meta": ["num", 42] } }
        }"#,
    );
    assert!(err.contains("'propagate-request-meta' entries must be strings"), "unexpected error: {err}");
}

#[test]
fn propagate_request_meta_invalid_meta_key_source_is_error() {
    let err = refuse(
        r#"{
            "type": "mcp",
            "port": 3001,
            "tool": { "bad": { "component": "c", "function": "f", "propagate-request-meta": ["-bad-prefix/x"] } }
        }"#,
    );
    assert!(err.contains("not a valid MCP _meta key"), "unexpected error: {err}");
}

#[test]
fn propagate_result_meta_invalid_meta_key_target_is_error() {
    let err = refuse(
        r#"{
            "type": "mcp",
            "port": 3001,
            "tool": { "bad": { "component": "c", "function": "f", "propagate-result-meta": ["x-source as bad-name-"] } }
        }"#,
    );
    assert!(err.contains("not a valid MCP _meta key"), "unexpected error: {err}");
}

#[test]
fn propagate_meta_accepts_reverse_dns_keys() {
    read(
        "mcp",
        r#"{
            "type": "mcp",
            "port": 3001,
            "tool": {
                "ok": {
                    "component": "c",
                    "function": "f",
                    "propagate-request-meta": ["com.example.tools/tag"],
                    "propagate-result-meta": ["x-ratelimit-remaining as com.example.tools/ratelimit-remaining"]
                }
            }
        }"#,
    );
}

#[test]
fn propagate_meta_accepts_reserved_mcp_prefix() {
    read(
        "mcp",
        r#"{
            "type": "mcp",
            "port": 3001,
            "tool": {
                "ok": {
                    "component": "c",
                    "function": "f",
                    "propagate-request-meta": ["io.modelcontextprotocol/related-task"]
                }
            }
        }"#,
    );
}

#[test]
fn result_mapping_header_overridden_by_propagate_result_meta_is_error() {
    let err = refuse(
        r#"{
            "type": "mcp",
            "port": 3001,
            "tool": {
                "bad": {
                    "component": "c",
                    "function": "f",
                    "result-mapping": { "headers": { "x-tag": "{label}" } },
                    "propagate-result-meta": ["other-source as x-tag"]
                }
            }
        }"#,
    );
    assert!(
        err.contains("written by 'result-mapping.headers'") && err.contains("overridden"),
        "unexpected error: {err}"
    );
}

#[test]
fn result_mapping_header_with_matching_propagate_result_meta_identity_is_ok() {
    read(
        "mcp",
        r#"{
            "type": "mcp",
            "port": 3001,
            "tool": {
                "ok": {
                    "component": "c",
                    "function": "f",
                    "result-mapping": { "headers": { "x-tag": "{label}" } },
                    "propagate-result-meta": ["x-tag"]
                }
            }
        }"#,
    );
}

#[test]
fn channel_tool_with_schema() {
    let handler = read(
        "mcp",
        r#"{
            "type": "mcp",
            "port": 3001,
            "tool": {
                "process": {
                    "channel": "work-queue",
                    "description": "Submit work",
                    "input-schema": {
                        "type": "object",
                        "properties": { "task": { "type": "string" } },
                        "required": ["task"]
                    }
                }
            }
        }"#,
    );
    let servers = handler.servers();
    assert_eq!(servers[0].tools.len(), 1);
    assert_eq!(servers[0].tools[0].name, "process");
    assert_eq!(servers[0].tools[0].description.as_deref(), Some("Submit work"));
    assert!(matches!(
        &servers[0].tools[0].target,
        ToolTarget::Channel { channel, input_schema: Json::Object(schema), .. }
            if channel == "work-queue" && schema.get("properties").is_some()
    ));
}

#[test]
fn channel_tool_requires_schema() {
    let err = refuse(
        r#"{
            "type": "mcp",
            "port": 3001,
            "tool": { "process": { "channel": "work-queue", "description": "Submit work" } }
        }"#,
    );
    assert!(err.contains("requires 'input-schema'"), "unexpected error: {err}");
}

#[test]
fn no_tools_no_selector_errors() {
    let err = refuse(r#"{ "type": "mcp", "port": 3001 }"#);
    assert!(err.contains("no tools and no component-selector"));
}

#[test]
fn selector_only_valid() {
    let handler = read("mcp", r#"{ "type": "mcp", "port": 3001, "component-selector": "!dependents" }"#);
    let servers = handler.servers();
    assert!(servers[0].component_selector.is_some());
    assert!(servers[0].tools.is_empty());
}

#[test]
fn selector_matches_mcp_type() {
    let handler = McpServerConfigHandler::new(shared_config());
    let claims = handler.claimed_categories();
    assert_eq!(claims.len(), 1);
    assert_eq!(claims[0].category, "server");
    assert!(claims[0].selector.is_some());

    let selector = claims[0].selector.as_ref().unwrap();
    let matching = vec![("type".to_string(), Some("mcp".to_string()))];
    assert!(selector.matches(&matching));

    let non_matching = vec![("type".to_string(), Some("http".to_string()))];
    assert!(!selector.matches(&non_matching));
}

#[test]
fn unknown_tool_property() {
    let err = refuse(
        r#"{
            "type": "mcp",
            "port": 3001,
            "tool": { "bad": { "component": "math", "function": "add-two", "bogus": "value" } }
        }"#,
    );
    assert!(err.contains("unknown properties"));
}

#[test]
fn wildcard_allowed_origins() {
    let handler = read(
        "mcp",
        r#"{ "type": "mcp", "port": 3001, "allowed-origins": "*", "component-selector": "!dependents" }"#,
    );
    assert_eq!(handler.servers()[0].allowed_origins.as_deref(), Some(["*".to_string()].as_slice()));
}

#[test]
fn selector_and_tools_coexist() {
    let handler = read(
        "mcp",
        r#"{
            "type": "mcp",
            "port": 3001,
            "component-selector": "labels.domain=api",
            "tool": {
                "custom-tool": {
                    "component": "math",
                    "function": "add-two",
                    "description": "Custom description"
                }
            }
        }"#,
    );
    let servers = handler.servers();
    assert!(servers[0].component_selector.is_some());
    assert_eq!(servers[0].tools.len(), 1);
}

#[test]
fn the_default_server_discovers_components_on_the_local_host() {
    let server = default_server();
    assert_eq!(server.name, "mcp");
    assert_eq!(server.host, "127.0.0.1");
    assert_eq!(server.port, 3001);
    assert!(server.allowed_origins.is_none());
    assert_eq!(server.component_selector.as_deref(), Some("!dependents"));
    assert!(server.tools.is_empty());
    assert!(server.otlp_endpoint.is_none());
    assert_eq!(server.otlp_protocol, "grpc");
}

#[test]
fn tracing_options_are_read() {
    let handler = read(
        "mcp",
        r#"{
            "port": 1,
            "component-selector": "x",
            "otlp-endpoint": "http://localhost:4317",
            "otlp-protocol": "http/protobuf"
        }"#,
    );
    let server = &handler.servers()[0];
    assert_eq!(server.otlp_endpoint.as_deref(), Some("http://localhost:4317"));
    assert_eq!(server.otlp_protocol, "http/protobuf");
    assert_eq!(server.component_selector.as_deref(), Some("x"));
    let plain = read("mcp", r#"{ "port": 1, "component-selector": "x" }"#);
    assert!(plain.servers()[0].otlp_endpoint.is_none());
    assert_eq!(plain.servers()[0].otlp_protocol, "grpc");
}

#[test]
fn another_category_is_refused() {
    let mut handler = make_handler();
    let err = handle(&mut handler, "gateway", "mcp", r#"{ "port": 3001 }"#).unwrap_err();
    assert_eq!(err, "McpServerConfigHandler received unexpected category 'gateway'");
}

#[test]
fn a_port_has_to_be_a_port_number() {
    assert_eq!(refuse(r#"{ "port": 65536 }"#), "Server 'mcp': 'port' must be a valid port number");
    assert_eq!(refuse(r#"{ "port": -1 }"#), "Server 'mcp': 'port' must be a valid port number");
    assert_eq!(refuse(r#"{ "port": 80.5 }"#), "Server 'mcp': 'port' must be a valid port number");
    assert_eq!(refuse(r#"{ "port": "80" }"#), "Server 'mcp': 'port' must be a number, got \"80\"");
    assert_eq!(refuse(r#"{ }"#), "Server 'mcp' missing required 'port' field");
    let handler = read("mcp", r#"{ "port": 65535, "component-selector": "x" }"#);
    assert_eq!(handler.servers()[0].port, 65535);
}

#[test]
fn server_properties_of_a_wrong_kind_are_refused() {
    assert_eq!(refuse(r#"{ "port": 1, "host": 5 }"#), "Server 'mcp': 'host' must be a string, got 5");
    assert_eq!(
        refuse(r#"{ "port": 1, "allowed-origins": "a" }"#),
        "Server 'mcp': 'allowed-origins' must be an array or '*', got \"a\""
    );
    assert_eq!(
        refuse(r#"{ "port": 1, "allowed-origins": ["a", 1, true] }"#),
        "Server 'mcp': 'allowed-origins' items must be strings, got 1"
    );
    assert_eq!(
        refuse(r#"{ "port": 1, "component-selector": ["a"] }"#),
        "Server 'mcp': 'component-selector' must be a string, got [\"a\"]"
    );
    assert_eq!(
        refuse(r#"{ "port": 1, "otlp-endpoint": null }"#),
        "Server 'mcp': 'otlp-endpoint' must be a string, got null"
    );
    assert_eq!(
        refuse(r#"{ "port": 1, "otlp-protocol": {} }"#),
        "Server 'mcp': 'otlp-protocol' must be a string, got {}"
    );
    assert_eq!(refuse(r#"{ "port": 1, "tool": [] }"#), "Server 'mcp': 'tool' must be a table, got []");
    assert_eq!(
        refuse(r#"{ "port": 1, "component-selector": "x", "zeta": 1, "al\"pha": 2 }"#),
        "Server 'mcp' has unknown properties: [\"al\\\"pha\", \"zeta\"]"
    );
    assert_eq!(
        refuse(r#"{ "port": 1 }"#),
        "Server 'mcp' has no tools and no component-selector. At least one must be specified."
    );
}

#[test]
fn tool_properties_of_a_wrong_kind_are_refused() {
    let tool = |properties: &str| refuse(&format!("{{ \"port\": 1, \"tool\": {{ \"t\": {properties} }} }}"));
    assert_eq!(tool("1"), "Server 'mcp': tool 't' must be a table, got 1");
    assert_eq!(tool(r#"{ "component": 1 }"#), "Server 'mcp': tool 't' 'component' must be a string, got 1");
    assert_eq!(tool(r#"{ "function": 1 }"#), "Server 'mcp': tool 't' 'function' must be a string, got 1");
    assert_eq!(tool(r#"{ "channel": 1 }"#), "Server 'mcp': tool 't' 'channel' must be a string, got 1");
    assert_eq!(
        tool(r#"{ "component": "c", "function": "f", "description": 1 }"#),
        "Server 'mcp': tool 't' 'description' must be a string, got 1"
    );
    assert_eq!(
        tool(r#"{ "param-mapping": 1 }"#),
        "Server 'mcp': tool 't' 'param-mapping' must be an object, got 1"
    );
    assert_eq!(
        tool(r#"{ "param-encoding": 1 }"#),
        "Server 'mcp': tool 't' 'param-encoding' must be an object, got 1"
    );
    assert_eq!(
        tool(r#"{ "result-decoding": 1 }"#),
        "Server 'mcp': tool 't' 'result-decoding' must be an object, got 1"
    );
    assert_eq!(
        tool(r#"{ "component": "c", "function": "f", "propagate-result-meta": "x" }"#),
        "Server 'mcp': tool 't' 'propagate-result-meta' must be an array of strings, got \"x\""
    );
    assert_eq!(
        tool(r#"{ "component": "c", "function": "f", "what": 1 }"#),
        "Server 'mcp': tool 't' has unknown properties: [\"what\"]"
    );
    assert_eq!(tool(r#"{}"#), "Server 'mcp': tool 't' must have either 'component'/'function' or 'channel'");
    assert_eq!(
        tool(r#"{ "component": "c", "channel": "x" }"#),
        "Server 'mcp': tool 't' cannot have both 'component'/'function' and 'channel'"
    );
    assert_eq!(
        tool(r#"{ "channel": "x" }"#),
        "Server 'mcp': channel-backed tool 't' requires 'input-schema'"
    );
    assert_eq!(
        tool(r#"{ "channel": "x", "input-schema": {}, "result-mapping": 1 }"#),
        "Server 'mcp': tool 't' has 'param-mapping', 'param-encoding', 'result-decoding', or 'result-mapping' but those apply to component-backed tools only; for channel-backed tools, subscriptions own any mappings"
    );
    assert_eq!(
        tool(
            r#"{ "component": "c", "function": "f",
                 "result-mapping": { "headers": { "a": "{x}" } }, "propagate-result-meta": ["b as a"] }"#
        ),
        "Server 'mcp': tool 't': 'a' is written by 'result-mapping.headers' but overridden by 'propagate-result-meta' entry 'b as a'"
    );
}

#[test]
fn what_the_runtime_refuses_is_reported() {
    let mut handler = make_handler();
    let properties = object(r#"{ "port": 1, "component-selector": "((" }"#);
    let mut answers = no_answers();
    match handler.handle_category("server", "mcp", &properties, &answers) {
        Err(Halt::Ask(Question::Selector { expression })) => assert_eq!(expression, "(("),
        _ => panic!("expected a question about the selector"),
    }
    answers.selectors.push(("((".to_string(), Some("unbalanced".to_string())));
    match handler.handle_category("server", "mcp", &properties, &answers) {
        Err(Halt::Error(e)) => assert_eq!(e, "Server 'mcp': invalid component-selector '((': unbalanced"),
        _ => panic!("expected an error"),
    }

    let properties = object(
        r#"{ "port": 1, "tool": { "t": { "component": "c", "function": "f",
             "param-encoding": { "a": 1 }, "result-decoding": { "b": 2 },
             "propagate-request-meta": ["x as"] } } }"#,
    );
    let mut answers = no_answers();
    match handler.handle_category("server", "mcp", &properties, &answers) {
        Err(Halt::Ask(Question::ParamEncoding { tool, block })) => {
            assert_eq!(tool, "t");
            assert_eq!(Json::Object(block).to_text(), r#"{"a":1}"#);
        }
        _ => panic!("expected a question about the encoding"),
    }
    let mut refused = no_answers();
    refused.param_encodings.push(("t".to_string(), Some("no such type".to_string())));
    match handler.handle_category("server", "mcp", &properties, &refused) {
        Err(Halt::Error(e)) => assert_eq!(e, "Server 'mcp': tool 't' 'param-encoding': no such type"),
        _ => panic!("expected an error"),
    }
    answers.param_encodings.push(("t".to_string(), None));
    match handler.handle_category("server", "mcp", &properties, &answers) {
        Err(Halt::Ask(Question::ResultDecoding { tool, block })) => {
            assert_eq!(tool, "t");
            assert_eq!(Json::Object(block).to_text(), r#"{"b":2}"#);
        }
        _ => panic!("expected a question about the decoding"),
    }
    let mut refused = no_answers();
    refused.param_encodings.push(("t".to_string(), None));
    refused.result_decodings.push(("t".to_string(), Some("bad".to_string())));
    match handler.handle_category("server", "mcp", &properties, &refused) {
        Err(Halt::Error(e)) => assert_eq!(e, "Server 'mcp': tool 't' 'result-decoding': bad"),
        _ => panic!("expected an error"),
    }
    answers.result_decodings.push(("t".to_string(), None));
    match handler.handle_category("server", "mcp", &properties, &answers) {
        Err(Halt::Ask(Question::Propagation { entry })) => assert_eq!(entry, "x as"),
        _ => panic!("expected a question about the entry"),
    }
    answers.propagations.push(("x as".to_string(), Reading::Refused("no target".to_string())));
    match handler.handle_category("server", "mcp", &properties, &answers) {
        Err(Halt::Error(e)) => {
            assert_eq!(e, "Server 'mcp': tool 't' 'propagate-request-meta' entry 'x as': no target")
        }
        _ => panic!("expected an error"),
    }
    assert!(handler.servers().is_empty());
}

#[test]
fn a_refused_definition_leaves_the_servers_as_they_are() {
    let mut handler = make_handler();
    handle(&mut handler, "server", "one", r#"{ "port": 1, "component-selector": "x" }"#).unwrap();
    handle(&mut handler, "server", "two", r#"{ "port": "?" }"#).unwrap_err();
    handle(&mut handler, "server", "three", r#"{ "port": 3, "component-selector": "x" }"#).unwrap();
    let names: Vec<&str> = handler.servers().iter().map(|s| s.name.as_str()).collect();
    assert_eq!(names, vec!["one", "three"]);
}

#[test]
fn tools_are_read_in_the_order_of_their_names() {
    let handler = read(
        "mcp",
        r#"{ "port": 1, "tool": {
            "b": { "component": "c", "function": "f" },
            "a": { "channel": "q", "input-schema": {}, "output-schema": { "type": "string" } }
        } }"#,
    );
    let tools = &handler.servers()[0].tools;
    assert_eq!(tools.len(), 2);
    assert_eq!(tools[0].name, "a");
    assert!(matches!(
        &tools[0].target,
        ToolTarget::Channel { output_schema: Some(schema), .. } if schema.to_text() == r#"{"type":"string"}"#
    ));
    assert_eq!(tools[1].name, "b");
}

#[test]
fn more_answers_than_asked_for_change_nothing() {
    let properties = object(r#"{ "port": 1, "component-selector": "x" }"#);
    let mut answers = no_answers();
    answers.selectors.push(("x".to_string(), None));
    answers.selectors.push(("y".to_string(), Some("bad".to_string())));
    answers.param_encodings.push(("t".to_string(), Some("bad".to_string())));
    let mut handler = make_handler();
    assert!(handler.handle_category("server", "mcp", &properties, &answers).is_ok());
    assert_eq!(handler.servers()[0].component_selector.as_deref(), Some("x"));
}

#[test]
fn the_claimed_properties_are_those_that_are_read() {
    let handler = make_handler();
    let claimed = handler.claimed_properties();
    assert_eq!(claimed.len(), 1);
    assert_eq!(claimed[0].0, "server");
    assert_eq!(
        claimed[0].1,
        vec![
            "type",
            "host",
            "port",
            "allowed-origins",
            "component-selector",
            "otlp-endpoint",
            "otlp-protocol",
            "tool"
        ]
    );
}

#[test]
fn the_meta_side_depends_on_the_direction() {
    let mut answers = no_answers();
    answers.propagations.push(("a as -b".to_string(), Reading::Header(header("a as -b"))));
    let properties = object(r#"{ "list": ["a as -b"] }"#);
    let inbound =
        parse_propagated_meta_list(&properties, "list", PropagationDirection::Inbound, "s", "t", &answers).ok().unwrap();
    assert_eq!(inbound.len(), 1);
    assert_eq!(inbound[0].target, "-b");
    match parse_propagated_meta_list(&properties, "list", PropagationDirection::Outbound, "s", "t", &answers) {
        Err(Halt::Error(e)) => assert_eq!(
            e,
            "Server 's': tool 't' 'list' entry 'a as -b': '-b' is not a valid MCP _meta key: name '-b' must begin with an alphanumeric character"
        ),
        _ => panic!("expected an error"),
    }
    let none =
        parse_propagated_meta_list(&properties, "other", PropagationDirection::Inbound, "s", "t", &answers).ok().unwrap();
    assert!(none.is_empty());
}

#[test]
fn complaints_are_put_together() {
    assert_eq!(kind_complaint("Server 's':", "host", "a string", "5"), "Server 's': 'host' must be a string, got 5");
    assert_eq!(bracket(&vec![]), "[]");
    assert_eq!(bracket(&vec!["\"a\"".to_string()]), "[\"a\"]");
    assert_eq!(bracket(&vec!["a".to_string(), "b".to_string(), "c".to_string()]), "[a, b, c]");
}
