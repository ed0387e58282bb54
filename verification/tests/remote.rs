use toolbelt::adapter::{Config, ToolMetadata};
use toolbelt::remote::{
    call, demanded_config, list, metadata, required_config, tool_call_target, tool_metadata_source, transport_error,
    Payload, ProtocolError,
};

fn store(entries: &[(&str, &str)]) -> Config {
    let all: Vec<(String, String)> = entries.iter().map(|(k, v)| (k.to_string(), v.to_string())).collect();
    Config { values: all, listing: vec![] }
}

fn tool(name: &str, description: &str) -> ToolMetadata {
    ToolMetadata {
        name: name.to_string(),
        title: None,
        description: Some(description.to_string()),
        input_schema: "{}".to_string(),
        output_schema: None,
        annotations: None,
        meta: vec![],
    }
}

fn error() -> ProtocolError {
    ProtocolError { code: -32601, message: "no such method".to_string(), data: Some("d".to_string()) }
}

#[test]
fn missing_config_is_reported() {
    assert_eq!(demanded_config(&store(&[]), "server-url").err().unwrap(), "missing required config: server-url");
    let e = required_config(&store(&[]), "tool-name").err().unwrap();
    assert_eq!(e.code, -32000);
    assert_eq!(e.message, "missing required config: tool-name");
    assert!(e.data.is_none());
    assert_eq!(required_config(&store(&[("tool-name", "t")]), "tool-name").ok().unwrap(), "t");
    assert_eq!(transport_error("down".to_string()).message, "down");
}

#[test]
fn the_first_missing_config_value_is_named() {
    let full = store(&[("server-url", "u"), ("tool-name", "t")]);
    assert_eq!(tool_metadata_source(&full).ok().unwrap(), ("u".to_string(), "t".to_string()));
    assert_eq!(tool_call_target(&full).ok().unwrap(), ("t".to_string(), "u".to_string()));
    assert_eq!(tool_metadata_source(&store(&[])).err().unwrap(), "missing required config: server-url");
    assert_eq!(
        tool_metadata_source(&store(&[("server-url", "u")])).err().unwrap(),
        "missing required config: tool-name"
    );
    assert_eq!(tool_call_target(&store(&[])).err().unwrap().message, "missing required config: tool-name");
    assert_eq!(
        tool_call_target(&store(&[("tool-name", "t")])).err().unwrap().message,
        "missing required config: server-url"
    );
}

#[test]
fn tools_are_listed_as_the_server_lists_them() {
    let tools = list(Ok(Payload::Result(vec![tool("a", "1"), tool("b", "2")]))).ok().unwrap();
    assert_eq!(tools.len(), 2);
    assert_eq!(tools[1].name, "b");
    assert_eq!(list(Err("down".to_string())).err().unwrap(), "down");
    assert_eq!(list(Ok(Payload::Error(error()))).err().unwrap(), "MCP protocol error -32601: no such method");
    let positive = ProtocolError { code: 105, message: "m".to_string(), data: None };
    assert_eq!(list(Ok(Payload::Error(positive))).err().unwrap(), "MCP protocol error 105: m");
    let least = ProtocolError { code: i32::MIN, message: "m".to_string(), data: None };
    assert_eq!(list(Ok(Payload::Error(least))).err().unwrap(), "MCP protocol error -2147483648: m");
}

#[test]
fn the_first_tool_with_the_name_is_found() {
    let tools = || Ok(Payload::Result(vec![tool("a", "1"), tool("b", "2"), tool("b", "3")]));
    assert_eq!(metadata(tools(), "b").ok().unwrap().description.as_deref(), Some("2"));
    assert_eq!(metadata(tools(), "c").err().unwrap(), "tool 'c' not found on server");
    assert_eq!(metadata(Err("down".to_string()), "a").err().unwrap(), "down");
    assert_eq!(
        metadata(Ok(Payload::Error(error())), "a").err().unwrap(),
        "MCP protocol error -32601: no such method"
    );
}

#[test]
fn remote_calls_pass_results_and_errors_on() {
    assert_eq!(call(Ok(Payload::Result("result".to_string()))).ok().unwrap(), "result");
    let e = call::<String>(Ok(Payload::Error(error()))).err().unwrap();
    assert_eq!(e.code, -32601);
    assert_eq!(e.message, "no such method");
    assert_eq!(e.data.as_deref(), Some("d"));
    let e = call::<String>(Err("down".to_string())).err().unwrap();
    assert_eq!(e.code, -32000);
    assert_eq!(e.message, "down");
    assert!(e.data.is_none());
}
