//! What servers are read from, property by property.

use vstd::prelude::*;

use crate::config::laws::tools::{
    define_a_tool, is_text_set, may_be_text, texts_are_read_item_by_item, tools_are_accepted_where_properties_define_them,
};
use crate::config::laws::{only_known_keys, unknown_keys_are_found};
use crate::config::model::{AnswersView, HaltView, ToolConfigView};
use crate::config::rules::{definition, server_context, server_keys, tool_properties, tool_table};
use crate::json::{Fields, JsonView, NumberView};
use crate::pairs::lookup;

verus! {

/// Whether tools are those of a table, one by one.
pub open spec fn are_tools_of_table(
    tools: Seq<ToolConfigView>,
    server: Seq<char>,
    table: Fields,
    answers: AnswersView,
) -> bool {
    tools.len() == table.len() && forall|i: int|
        0 <= i < table.len() ==> ((#[trigger] table[i]).1 matches JsonView::Object(props) && tool_properties(
            server,
            table[i].0,
            props,
            answers,
        ) == Ok::<ToolConfigView, HaltView>(tools[i]))
}

/// Whether every entry of a table defines a tool.
pub open spec fn define_tools(table: Fields, answers: AnswersView) -> bool {
    forall|i: int|
        0 <= i < table.len() ==> ((#[trigger] table[i]).1 matches JsonView::Object(props) && define_a_tool(
            table[i].0,
            props,
            answers,
        ))
}

/// Tables are read tool by tool, if and only if every entry defines one.
pub proof fn tables_are_read_tool_by_tool(server: Seq<char>, table: Fields, answers: AnswersView)
    ensures
        tool_table(server, table, answers) is Ok <==> define_tools(table, answers),
        tool_table(server, table, answers) matches Ok(tools) ==> are_tools_of_table(tools, server, table, answers),
    decreases table.len(),
{
    if table.len() > 0 {
        let rest = table.drop_first();
        tables_are_read_tool_by_tool(server, rest, answers);
        if let JsonView::Object(props) = table[0].1 {
            tools_are_accepted_where_properties_define_them(server, table[0].0, props, answers);
        }
        if let Ok(tools) = tool_table(server, table, answers) {
            let tail = tool_table(server, rest, answers)->Ok_0;
            assert forall|i: int| 0 <= i < table.len() implies ((#[trigger] table[i]).1 matches JsonView::Object(props)
                && tool_properties(server, table[i].0, props, answers) == Ok::<ToolConfigView, HaltView>(tools[i])
                && define_a_tool(table[i].0, props, answers)) by {
                if i > 0 {
                    assert(rest[i - 1] == table[i]);
                    assert(tools[i] == tail[i - 1]);
                }
            }
        }
        if define_tools(table, answers) {
            assert(table[0].1 is Object);
            assert forall|i: int| 0 <= i < rest.len() implies ((#[trigger] rest[i]).1 matches JsonView::Object(props)
                && define_a_tool(rest[i].0, props, answers)) by {
                assert(rest[i] == table[i + 1]);
            }
        }
    }
}

/// Whether origins are those that a property lists, or the star that stands for any, or there
/// is neither.
pub open spec fn are_origins_set(origins: Option<Seq<Seq<char>>>, props: Fields) -> bool {
    match (origins, lookup(props, "allowed-origins"@)) {
        (None, None) => true,
        (Some(texts), Some(JsonView::Array(items))) => texts.len() == items.len() && forall|i: int|
            0 <= i < items.len() ==> (#[trigger] items[i]) == JsonView::Str(texts[i]),
        (Some(texts), Some(JsonView::Str(s))) => s == "*"@ && texts.len() == 1 && texts[0] == "*"@,
        _ => false,
    }
}

/// Whether the origins are not set, or set to a list of texts or to the star.
pub open spec fn may_be_origins(props: Fields) -> bool {
    match lookup(props, "allowed-origins"@) {
        None => true,
        Some(JsonView::Array(items)) => forall|i: int| 0 <= i < items.len() ==> (#[trigger] items[i]) is Str,
        Some(JsonView::Str(s)) => s == "*"@,
        _ => false,
    }
}

/// Whether a number is the port that is set.
pub open spec fn is_port_set(port: u16, props: Fields) -> bool {
    lookup(props, "port"@) matches Some(JsonView::Number(NumberView::PosInt(n))) && n == port
}

/// Whether the tools are those that are set; none where there is no table.
pub open spec fn are_tools_set(
    tools: Seq<ToolConfigView>,
    server: Seq<char>,
    props: Fields,
    answers: AnswersView,
) -> bool {
    match lookup(props, "tool"@) {
        None => tools.len() == 0,
        Some(JsonView::Object(table)) => are_tools_of_table(tools, server, table, answers),
        _ => false,
    }
}

/// A server that is accepted has the name it is defined under, and holds each of its
/// properties as it is set; where it is not set the host is 127.0.0.1, the protocol is grpc,
/// and there is none of the others.
pub proof fn accepted_servers_hold_their_properties(
    category: Seq<char>,
    name: Seq<char>,
    props: Fields,
    answers: AnswersView,
)
    requires
        definition(category, name, props, answers) is Ok,
    ensures
        ({
            let server = definition(category, name, props, answers)->Ok_0;
            &&& server.name == name
            &&& is_port_set(server.port, props)
            &&& lookup(props, "host"@) == Some(JsonView::Str(server.host)) || lookup(props, "host"@) is None
                && server.host == "127.0.0.1"@
            &&& are_origins_set(server.allowed_origins, props)
            &&& is_text_set(server.component_selector, props, "component-selector"@)
            &&& is_text_set(server.otlp_endpoint, props, "otlp-endpoint"@)
            &&& lookup(props, "otlp-protocol"@) == Some(JsonView::Str(server.otlp_protocol)) || lookup(
                props,
                "otlp-protocol"@,
            ) is None && server.otlp_protocol == "grpc"@
            &&& are_tools_set(server.tools, name, props, answers)
        }),
{
    if let Some(JsonView::Array(items)) = lookup(props, "allowed-origins"@) {
        let complaint = server_context(name) + " 'allowed-origins' items must be strings, got "@;
        texts_are_read_item_by_item(complaint, items);
    }
    if let Some(JsonView::Object(table)) = lookup(props, "tool"@) {
        tables_are_read_tool_by_tool(name, table, answers);
    }
}

/// Whether a key is one that a server may have.
pub open spec fn is_server_key(key: Seq<char>) -> bool {
    ||| key == "type"@
    ||| key == "host"@
    ||| key == "port"@
    ||| key == "allowed-origins"@
    ||| key == "component-selector"@
    ||| key == "otlp-endpoint"@
    ||| key == "otlp-protocol"@
    ||| key == "tool"@
}

/// The keys of a server are those eight.
pub proof fn server_keys_are_those(key: Seq<char>)
    ensures
        server_keys().contains(key) <==> is_server_key(key),
{
    let keys = server_keys();
    assert(keys[0] == "type"@ && keys[1] == "host"@ && keys[2] == "port"@ && keys[3] == "allowed-origins"@);
    assert(keys[4] == "component-selector"@ && keys[5] == "otlp-endpoint"@ && keys[6] == "otlp-protocol"@);
    assert(keys[7] == "tool"@ && keys.len() == 8);
}

/// Whether the properties define a server.
pub open spec fn define_a_server(props: Fields, answers: AnswersView) -> bool {
    &&& lookup(props, "port"@) matches Some(JsonView::Number(NumberView::PosInt(n))) && n <= 65535
    &&& may_be_text(props, "host"@)
    &&& may_be_origins(props)
    &&& match lookup(props, "component-selector"@) {
        None => true,
        Some(JsonView::Str(s)) => lookup(answers.selectors, s) == Some(None::<Seq<char>>),
        _ => false,
    }
    &&& may_be_text(props, "otlp-endpoint"@)
    &&& may_be_text(props, "otlp-protocol"@)
    &&& match lookup(props, "tool"@) {
        None => lookup(props, "component-selector"@) is Some,
        Some(JsonView::Object(table)) => define_tools(table, answers) && (table.len() > 0 || lookup(
            props,
            "component-selector"@,
        ) is Some),
        _ => false,
    }
    &&& forall|i: int| 0 <= i < props.len() ==> is_server_key((#[trigger] props[i]).0)
}

/// A definition is accepted if and only if it is in the category `server` and its properties
/// define one: it has a port, each property is of its kind, the runtime has accepted the
/// selector, every entry of the table defines a tool, there is a tool or a selector, and no
/// property is unknown.
pub proof fn servers_are_accepted_where_properties_define_them(
    category: Seq<char>,
    name: Seq<char>,
    props: Fields,
    answers: AnswersView,
)
    ensures
        definition(category, name, props, answers) is Ok <==> category == "server"@ && define_a_server(props, answers),
{
    if let Some(JsonView::Array(items)) = lookup(props, "allowed-origins"@) {
        let complaint = server_context(name) + " 'allowed-origins' items must be strings, got "@;
        texts_are_read_item_by_item(complaint, items);
    }
    if let Some(JsonView::Object(table)) = lookup(props, "tool"@) {
        tables_are_read_tool_by_tool(name, table, answers);
    }
    unknown_keys_are_found(props, server_keys());
    assert forall|i: int| 0 <= i < props.len() implies (server_keys().contains((#[trigger] props[i]).0)
        <==> is_server_key(props[i].0)) by {
        server_keys_are_those(props[i].0);
    }
    assert(only_known_keys(props, server_keys()) <==> forall|i: int|
        0 <= i < props.len() ==> is_server_key((#[trigger] props[i]).0));
}

} // verus!
