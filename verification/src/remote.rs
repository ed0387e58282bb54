//! Tools on a remote MCP server, as a component presents them: one tool, or the set of
//! all of them.

use vstd::prelude::*;

use crate::adapter::{
    config, local_error, Config, ConfigView, ToolError, ToolErrorView, ToolMetadata, ToolMetadataView, SERVER_ERROR,
};
use crate::json::outcome;
use crate::pairs::lookup;
use crate::text::{cat2, cat3, cat4, same, signed, signed_text};

pub mod laws;

verus! {

/// An error that the server reported.
pub struct ProtocolError {
    pub code: i32,
    pub message: String,
    pub data: Option<String>,
}

/// What a `ProtocolError` stands for.
pub struct ProtocolErrorView {
    pub code: i32,
    pub message: Seq<char>,
    pub data: Option<Seq<char>>,
}

impl DeepView for ProtocolError {
    type V = ProtocolErrorView;

    open spec fn deep_view(&self) -> ProtocolErrorView {
        ProtocolErrorView { code: self.code, message: self.message@, data: self.data.deep_view() }
    }
}

/// What the server answered.
pub enum Payload<T> {
    Result(T),
    Error(ProtocolError),
}

/// What a `Payload` stands for.
pub enum PayloadView<T> {
    Result(T),
    Error(ProtocolErrorView),
}

impl<T: DeepView> DeepView for Payload<T> {
    type V = PayloadView<T::V>;

    open spec fn deep_view(&self) -> PayloadView<T::V> {
        match *self {
            Payload::Result(t) => PayloadView::Result(t.deep_view()),
            Payload::Error(e) => PayloadView::Error(e.deep_view()),
        }
    }
}

/// The complaint about a config value that is not set.
pub open spec fn missing_config(key: Seq<char>) -> Seq<char> {
    "missing required config: "@ + key
}

/// A config value that has to be set.
pub open spec fn demanded(config: ConfigView, key: Seq<char>) -> Result<Seq<char>, Seq<char>> {
    match lookup(config.values, key) {
        Some(value) => Ok(value),
        None => Err(missing_config(key)),
    }
}

/// A config value that has to be set, or the complaint that it is not.
pub fn demanded_config(store: &Config, key: &str) -> (r: Result<String, String>)
    ensures
        outcome(r) == demanded(store.deep_view(), key@),
{
    match config(store, key) {
        Some(value) => Ok(value),
        None => Err(cat2("missing required config: ", key)),
    }
}

/// A failure to reach the server, as distinct from one the server reported.
pub fn transport_error(message: String) -> (r: ToolError)
    ensures
        r.deep_view() == local_error(message@),
{
    ToolError { code: SERVER_ERROR, message, data: None }
}

/// A required configuration value, as a tool error when unset.
pub open spec fn required(config: ConfigView, key: Seq<char>) -> Result<Seq<char>, ToolErrorView> {
    match demanded(config, key) {
        Ok(value) => Ok(value),
        Err(e) => Err(local_error(e)),
    }
}

/// A required configuration value, as a tool error when unset.
pub fn required_config(store: &Config, key: &str) -> (r: Result<String, ToolError>)
    ensures
        outcome(r) == required(store.deep_view(), key@),
{
    match demanded_config(store, key) {
        Ok(value) => Ok(value),
        Err(e) => Err(transport_error(e)),
    }
}

/// Where the metadata of one tool is asked for: the server's address, then the tool's
/// name.
pub open spec fn metadata_source(config: ConfigView) -> Result<(Seq<char>, Seq<char>), Seq<char>> {
    match demanded(config, "server-url"@) {
        Err(e) => Err(e),
        Ok(url) => match demanded(config, "tool-name"@) {
            Err(e) => Err(e),
            Ok(name) => Ok((url, name)),
        },
    }
}

/// Where the metadata of one tool is asked for.
pub fn tool_metadata_source(store: &Config) -> (r: Result<(String, String), String>)
    ensures
        outcome(r) == metadata_source(store.deep_view()),
{
    let url = match demanded_config(store, "server-url") {
        Err(e) => {
            return Err(e);
        },
        Ok(url) => url,
    };
    match demanded_config(store, "tool-name") {
        Err(e) => Err(e),
        Ok(name) => Ok((url, name)),
    }
}

/// Where one tool is called: the tool's name, then the server's address.
pub open spec fn call_target(config: ConfigView) -> Result<(Seq<char>, Seq<char>), ToolErrorView> {
    match required(config, "tool-name"@) {
        Err(e) => Err(e),
        Ok(name) => match required(config, "server-url"@) {
            Err(e) => Err(e),
            Ok(url) => Ok((name, url)),
        },
    }
}

/// Where one tool is called.
pub fn tool_call_target(store: &Config) -> (r: Result<(String, String), ToolError>)
    ensures
        outcome(r) == call_target(store.deep_view()),
{
    let name = match required_config(store, "tool-name") {
        Err(e) => {
            return Err(e);
        },
        Ok(name) => name,
    };
    match required_config(store, "server-url") {
        Err(e) => Err(e),
        Ok(url) => Ok((name, url)),
    }
}

/// The words for an error that the server reported.
pub open spec fn protocol_text(error: ProtocolErrorView) -> Seq<char> {
    "MCP protocol error "@ + signed_text(error.code as int) + ": "@ + error.message
}

/// The tools that a server listed.
pub open spec fn listed(response: Result<PayloadView<Seq<ToolMetadataView>>, Seq<char>>) -> Result<
    Seq<ToolMetadataView>,
    Seq<char>,
> {
    match response {
        Err(e) => Err(e),
        Ok(PayloadView::Result(tools)) => Ok(tools),
        Ok(PayloadView::Error(e)) => Err(protocol_text(e)),
    }
}

/// The tools that a server listed, or why it listed none. A response that did not come
/// is given by its words.
pub fn list(response: Result<Payload<Vec<ToolMetadata>>, String>) -> (r: Result<Vec<ToolMetadata>, String>)
    ensures
        outcome(r) == listed(outcome(response)),
{
    match response {
        Err(e) => Err(e),
        Ok(Payload::Result(tools)) => Ok(tools),
        Ok(Payload::Error(e)) => {
            let code = signed(e.code);
            Err(cat4("MCP protocol error ", code.as_str(), ": ", e.message.as_str()))
        },
    }
}

/// The first tool with a name.
pub open spec fn named_tool(tools: Seq<ToolMetadataView>, name: Seq<char>) -> Option<ToolMetadataView>
    decreases tools.len(),
{
    if tools.len() == 0 {
        None
    } else if tools[0].name == name {
        Some(tools[0])
    } else {
        named_tool(tools.drop_first(), name)
    }
}

/// The tool with a name among those that a server listed.
pub open spec fn found_tool(
    response: Result<PayloadView<Seq<ToolMetadataView>>, Seq<char>>,
    name: Seq<char>,
) -> Result<ToolMetadataView, Seq<char>> {
    match listed(response) {
        Err(e) => Err(e),
        Ok(tools) => match named_tool(tools, name) {
            Some(tool) => Ok(tool),
            None => Err("tool '"@ + name + "' not found on server"@),
        },
    }
}

/// The place of the first tool with a name.
fn position(tools: &Vec<ToolMetadata>, name: &str) -> (r: Option<usize>)
    ensures
        match r {
            Some(i) => i < tools.len() && named_tool(tools.deep_view(), name@) == Some(
                tools@[i as int].deep_view(),
            ),
            None => named_tool(tools.deep_view(), name@) is None,
        },
{
    let ghost all = tools.deep_view();
    let mut i: usize = 0;
    assert(all.skip(0) =~= all);
    while i < tools.len()
        invariant
            i <= tools.len(),
            all == tools.deep_view(),
            named_tool(all, name@) == named_tool(all.skip(i as int), name@),
        decreases tools.len() - i,
    {
        assert(all.skip(i as int)[0] == tools@[i as int].deep_view());
        assert(all.skip(i as int).drop_first() =~= all.skip(i + 1));
        if same(tools[i].name.as_str(), name) {
            return Some(i);
        }
        i += 1;
    }
    None
}

/// The metadata of the tool with a name, as the server lists it.
pub fn metadata(response: Result<Payload<Vec<ToolMetadata>>, String>, tool_name: &str) -> (r: Result<
    ToolMetadata,
    String,
>)
    ensures
        outcome(r) == found_tool(outcome(response), tool_name@),
{
    let mut tools = match list(response) {
        Err(e) => {
            return Err(e);
        },
        Ok(tools) => tools,
    };
    match position(&tools, tool_name) {
        Some(i) => Ok(tools.swap_remove(i)),
        None => Err(cat3("tool '", tool_name, "' not found on server")),
    }
}

/// What a remote call answers: the result as the server gave it, its error, or the
/// failure to reach it.
pub open spec fn remote_outcome<T>(response: Result<Payload<T>, String>) -> Result<T, ToolErrorView> {
    match response {
        Err(e) => Err(local_error(e@)),
        Ok(Payload::Result(result)) => Ok(result),
        Ok(Payload::Error(e)) => Err(ToolErrorView { code: e.code, message: e.message@, data: e.data.deep_view() }),
    }
}

/// What a remote call answers.
pub fn call<T>(response: Result<Payload<T>, String>) -> (r: Result<T, ToolError>)
    ensures
        match (r, remote_outcome(response)) {
            (Ok(result), Ok(expected)) => result == expected,
            (Err(e), Err(expected)) => e.deep_view() == expected,
            _ => false,
        },
{
    match response {
        Err(e) => Err(transport_error(e)),
        Ok(Payload::Result(result)) => Ok(result),
        Ok(Payload::Error(e)) => Err(ToolError { code: e.code, message: e.message, data: e.data }),
    }
}

} // verus!
