//! What holds of every remote tool.

use vstd::prelude::*;

use crate::adapter::{ConfigView, ToolErrorView, ToolMetadataView};
use crate::mcp::laws::stands_for;
use crate::pairs::lookup;
use crate::remote::{
    call_target, demanded, found_tool, listed, metadata_source, named_tool, remote_outcome, required, Payload,
    PayloadView, ProtocolErrorView,
};
use crate::text::signed_text;

verus! {

/// A config value that has to be set is given as it is set; where it is not, the failure
/// names it, and as a failure of a call has the code -32000 and no data.
pub proof fn demanded_values_are_those_set(config: ConfigView, key: Seq<char>)
    ensures
        match lookup(config.values, key) {
            Some(value) => demanded(config, key) == Ok::<Seq<char>, Seq<char>>(value) && required(config, key) == Ok::<
                Seq<char>,
                ToolErrorView,
            >(value),
            None => {
                &&& demanded(config, key) == Err::<Seq<char>, Seq<char>>("missing required config: "@ + key)
                &&& required(config, key) matches Err(error) && error.code == -32000 && error.message
                    == "missing required config: "@ + key && error.data is None
            },
        },
{
}

/// Metadata are asked for with the address and the tool's name that config sets; the first of
/// them that is not set is named.
pub proof fn metadata_are_asked_for_where_config_says(config: ConfigView)
    ensures
        match (lookup(config.values, "server-url"@), lookup(config.values, "tool-name"@)) {
            (Some(url), Some(name)) => metadata_source(config) matches Ok(source) && source.0 == url && source.1 == name,
            (None, _) => metadata_source(config) == Err::<(Seq<char>, Seq<char>), Seq<char>>(
                "missing required config: "@ + "server-url"@,
            ),
            (Some(_), None) => metadata_source(config) == Err::<(Seq<char>, Seq<char>), Seq<char>>(
                "missing required config: "@ + "tool-name"@,
            ),
        },
{
}

/// A tool is called by the name and at the address that config sets; the first of them that
/// is not set is named.
pub proof fn tools_are_called_where_config_says(config: ConfigView)
    ensures
        match (lookup(config.values, "tool-name"@), lookup(config.values, "server-url"@)) {
            (Some(name), Some(url)) => call_target(config) matches Ok(target) && target.0 == name && target.1 == url,
            (None, _) => call_target(config) matches Err(error) && error.code == -32000 && error.data is None
                && error.message == "missing required config: "@ + "tool-name"@,
            (Some(_), None) => call_target(config) matches Err(error) && error.code == -32000 && error.data is None
                && error.message == "missing required config: "@ + "server-url"@,
        },
{
}

/// The tools that are listed are those of the server's answer, all of them and unchanged; an
/// error of the server is told with its code and words, and a missing answer with its words.
pub proof fn listed_tools_are_the_servers(response: Result<PayloadView<Seq<ToolMetadataView>>, Seq<char>>)
    ensures
        match response {
            Ok(PayloadView::Result(tools)) => listed(response) == Ok::<Seq<ToolMetadataView>, Seq<char>>(tools),
            Ok(PayloadView::Error(e)) => listed(response) == Err::<Seq<ToolMetadataView>, Seq<char>>(
                "MCP protocol error "@ + signed_text(e.code as int) + ": "@ + e.message,
            ),
            Err(e) => listed(response) == Err::<Seq<ToolMetadataView>, Seq<char>>(e),
        },
{
}

/// The tool that is found under a name is the first with it, and one is found wherever there
/// is one.
proof fn named_tools_are_the_first(tools: Seq<ToolMetadataView>, name: Seq<char>)
    ensures
        match named_tool(tools, name) {
            Some(tool) => exists|i: int|
                0 <= i < tools.len() && (#[trigger] tools[i]).name == name && tools[i] == tool && forall|j: int|
                    0 <= j < i ==> (#[trigger] tools[j]).name != name,
            None => forall|i: int| 0 <= i < tools.len() ==> (#[trigger] tools[i]).name != name,
        },
    decreases tools.len(),
{
    if tools.len() > 0 && tools[0].name != name {
        let rest = tools.drop_first();
        named_tools_are_the_first(rest, name);
        if let Some(tool) = named_tool(rest, name) {
            let i = choose|i: int|
                0 <= i < rest.len() && (#[trigger] rest[i]).name == name && rest[i] == tool && forall|j: int|
                    0 <= j < i ==> (#[trigger] rest[j]).name != name;
            assert(tools[i + 1] == rest[i]);
            assert forall|j: int| 0 <= j < i + 1 implies (#[trigger] tools[j]).name != name by {
                if j > 0 {
                    assert(rest[j - 1] == tools[j]);
                }
            }
        } else {
            assert forall|i: int| 0 <= i < tools.len() implies (#[trigger] tools[i]).name != name by {
                if i > 0 {
                    assert(rest[i - 1] == tools[i]);
                }
            }
        }
    } else if tools.len() > 0 {
        assert(tools[0].name == name);
    }
}

/// The metadata of a tool are those of the first one with its name that the server lists,
/// unchanged; where the server lists none, the failure names the tool.
pub proof fn metadata_are_those_that_the_server_lists(tools: Seq<ToolMetadataView>, name: Seq<char>)
    ensures
        match found_tool(Ok(PayloadView::Result(tools)), name) {
            Ok(tool) => exists|i: int|
                0 <= i < tools.len() && (#[trigger] tools[i]).name == name && tools[i] == tool && forall|j: int|
                    0 <= j < i ==> (#[trigger] tools[j]).name != name,
            Err(e) => e == "tool '"@ + name + "' not found on server"@ && forall|i: int|
                0 <= i < tools.len() ==> (#[trigger] tools[i]).name != name,
        },
{
    named_tools_are_the_first(tools, name);
}

/// Where the server lists no tools at all, its error or the missing answer is told instead.
pub proof fn failures_to_list_are_passed_on(
    error: ProtocolErrorView,
    e: Seq<char>,
    name: Seq<char>,
)
    ensures
        found_tool(Ok(PayloadView::Error(error)), name) == Err::<ToolMetadataView, Seq<char>>(
            "MCP protocol error "@ + signed_text(error.code as int) + ": "@ + error.message,
        ),
        found_tool(Err(e), name) == Err::<ToolMetadataView, Seq<char>>(e),
{
}

/// The result of a remote call is the server's, unchanged; an error of the server keeps its
/// code, words and data, and a missing answer has the code -32000 and its words.
pub proof fn remote_answers_are_passed_on<T>(response: Result<Payload<T>, String>)
    ensures
        match (response, remote_outcome(response)) {
            (Ok(Payload::Result(result)), Ok(given)) => given == result,
            (Ok(Payload::Error(e)), Err(error)) => error.code == e.code && error.message == e.message@ && match e.data {
                Some(data) => error.data == Some(data@),
                None => error.data is None,
            },
            (Err(e), Err(error)) => error.code == -32000 && error.message == e@ && error.data is None,
            _ => false,
        },
{
}

/// An answer of the server shows whether it is a result or an error, and all of either.
pub proof fn payloads_show_every_field<T: DeepView>(payload: Payload<T>)
    ensures
        match (payload, payload.deep_view()) {
            (Payload::Result(t), PayloadView::Result(v)) => t.deep_view() == v,
            (Payload::Error(e), PayloadView::Error(v)) => e.code == v.code && e.message@ == v.message && stands_for(
                e.data,
                v.data,
            ),
            _ => false,
        },
{
}

} // verus!
