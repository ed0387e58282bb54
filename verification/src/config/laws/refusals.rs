//! What is said of definitions that are refused.

use vstd::prelude::*;

use crate::config::laws::servers::may_be_origins;
use crate::config::laws::tools::{
    is_channel_backed, is_component_backed, may_be_accepted_block, may_be_block, may_be_text, side_of,
    texts_are_read_item_by_item,
};
use crate::config::model::{
    AnswersView, HaltView, McpServerConfigView, PropagatedHeaderView, PropagationDirection, QuestionView, ReadingView,
    ToolConfigView, ToolTargetView,
};
use crate::config::rules::{
    assembled_tool, comma_separated, definition, first_override, origins_property, propagation_entry,
    propagation_property, quoted, quoted_list, server_keys, texts_of, tool_context, tool_entry, tool_keys,
    tool_properties, tool_table, tools_property, unknown_keys,
};
use crate::json::{written, Fields, JsonView, NumberView};
use crate::meta_key::key_verdict;
use crate::pairs::lookup;

verus! {

/// Whether a reading was refused, with these words.
pub open spec fn refuses<T>(read: Result<T, HaltView>, words: Seq<char>) -> bool {
    read matches Err(HaltView::Error(e)) && e == words
}

/// Whether a reading stopped at a question.
pub open spec fn asks<T>(read: Result<T, HaltView>, question: QuestionView) -> bool {
    read matches Err(HaltView::Ask(q)) && q == question
}

/// That a property of a server is of the wrong kind.
pub open spec fn server_words(server: Seq<char>, key: Seq<char>, kind: Seq<char>, got: JsonView) -> Seq<char> {
    "Server '"@ + server + "':"@ + " '"@ + key + "' must be "@ + kind + ", got "@ + written(got)
}

/// That a property of a tool is of the wrong kind.
pub open spec fn tool_words(
    server: Seq<char>,
    tool: Seq<char>,
    key: Seq<char>,
    kind: Seq<char>,
    got: JsonView,
) -> Seq<char> {
    "Server '"@ + server + "': tool '"@ + tool + "'"@ + " '"@ + key + "' must be "@ + kind + ", got "@ + written(got)
}

/// A definition in another category is refused, and the category named.
pub proof fn other_categories_are_refused(
    category: Seq<char>,
    name: Seq<char>,
    props: Fields,
    answers: AnswersView,
)
    requires
        category != "server"@,
    ensures
        refuses(
            definition(category, name, props, answers),
            "McpServerConfigHandler received unexpected category '"@ + category + "'"@,
        ),
{
}

/// Whether the port is one.
pub open spec fn has_port(props: Fields) -> bool {
    lookup(props, "port"@) matches Some(JsonView::Number(NumberView::PosInt(n))) && n <= 65535
}

/// A server without a port, or with one that is no number or out of range, is refused, and
/// told which.
pub proof fn servers_need_a_port(name: Seq<char>, props: Fields, answers: AnswersView)
    requires
        !has_port(props),
    ensures
        match lookup(props, "port"@) {
            None => refuses(
                definition("server"@, name, props, answers),
                "Server '"@ + name + "' missing required 'port' field"@,
            ),
            Some(JsonView::Number(_)) => refuses(
                definition("server"@, name, props, answers),
                "Server '"@ + name + "':"@ + " 'port' must be a valid port number"@,
            ),
            Some(got) => refuses(
                definition("server"@, name, props, answers),
                server_words(name, "port"@, "a number"@, got),
            ),
        },
{
}

/// A host that is no text is refused.
pub proof fn wrong_hosts_are_told(name: Seq<char>, props: Fields, answers: AnswersView)
    requires
        has_port(props),
        !may_be_text(props, "host"@),
    ensures
        refuses(
            definition("server"@, name, props, answers),
            server_words(name, "host"@, "a string"@, lookup(props, "host"@)->0),
        ),
{
}

/// Of items that have to be texts the first that is none is told.
proof fn first_item_that_is_no_text(complaint: Seq<char>, items: Seq<JsonView>, i: int)
    requires
        0 <= i < items.len(),
        !(items[i] is Str),
        forall|j: int| 0 <= j < i ==> (#[trigger] items[j]) is Str,
    ensures
        texts_of(complaint, items) == Err::<Seq<Seq<char>>, Seq<char>>(complaint + written(items[i])),
    decreases items.len(),
{
    if i > 0 {
        let rest = items.drop_first();
        assert(items[0] is Str);
        assert(rest[i - 1] == items[i]);
        assert forall|j: int| 0 <= j < i - 1 implies (#[trigger] rest[j]) is Str by {
            assert(rest[j] == items[j + 1]);
        }
        first_item_that_is_no_text(complaint, rest, i - 1);
    }
}

/// Origins that are neither a list nor the star are refused.
pub proof fn wrong_origins_are_told(name: Seq<char>, props: Fields, answers: AnswersView)
    requires
        has_port(props),
        may_be_text(props, "host"@),
        lookup(props, "allowed-origins"@) is Some,
        !(lookup(props, "allowed-origins"@)->0 is Array),
        lookup(props, "allowed-origins"@)->0 != JsonView::Str("*"@),
    ensures
        refuses(
            definition("server"@, name, props, answers),
            server_words(name, "allowed-origins"@, "an array or '*'"@, lookup(props, "allowed-origins"@)->0),
        ),
{
}

/// Of a list of origins the first that is no text is refused.
pub proof fn origins_that_are_no_texts_are_told(
    name: Seq<char>,
    props: Fields,
    answers: AnswersView,
    items: Seq<JsonView>,
    i: int,
)
    requires
        has_port(props),
        may_be_text(props, "host"@),
        lookup(props, "allowed-origins"@) == Some(JsonView::Array(items)),
        0 <= i < items.len(),
        !(items[i] is Str),
        forall|j: int| 0 <= j < i ==> (#[trigger] items[j]) is Str,
    ensures
        refuses(
            definition("server"@, name, props, answers),
            "Server '"@ + name + "':"@ + " 'allowed-origins' items must be strings, got "@ + written(items[i]),
        ),
{
    first_item_that_is_no_text(
        "Server '"@ + name + "':"@ + " 'allowed-origins' items must be strings, got "@,
        items,
        i,
    );
}

/// Whether all of a server's properties before the selector can be read.
pub open spec fn reads_up_to_origins(props: Fields) -> bool {
    has_port(props) && may_be_text(props, "host"@) && may_be_origins(props)
}

/// What comes before the selector is read where it can be.
proof fn origins_are_read(name: Seq<char>, props: Fields)
    requires
        reads_up_to_origins(props),
    ensures
        origins_property(name, props) is Ok,
{
    if let Some(JsonView::Array(items)) = lookup(props, "allowed-origins"@) {
        texts_are_read_item_by_item(
            "Server '"@ + name + "':"@ + " 'allowed-origins' items must be strings, got "@,
            items,
        );
    }
}

/// A selector that is no text is refused; of one that is, the runtime is asked, and what it
/// finds wrong is told.
pub proof fn selectors_are_asked_about(name: Seq<char>, props: Fields, answers: AnswersView)
    requires
        reads_up_to_origins(props),
        lookup(props, "component-selector"@) is Some,
    ensures
        match lookup(props, "component-selector"@)->0 {
            JsonView::Str(s) => match lookup(answers.selectors, s) {
                None => asks(
                    definition("server"@, name, props, answers),
                    QuestionView::Selector { expression: s },
                ),
                Some(Some(e)) => refuses(
                    definition("server"@, name, props, answers),
                    "Server '"@ + name + "':"@ + " invalid component-selector '"@ + s + "': "@ + e,
                ),
                Some(None) => true,
            },
            got => refuses(
                definition("server"@, name, props, answers),
                server_words(name, "component-selector"@, "a string"@, got),
            ),
        },
{
    origins_are_read(name, props);
}

/// Whether the selector is not set, or one that the runtime has accepted.
pub open spec fn may_be_selector(props: Fields, answers: AnswersView) -> bool {
    match lookup(props, "component-selector"@) {
        None => true,
        Some(JsonView::Str(s)) => lookup(answers.selectors, s) == Some(None::<Seq<char>>),
        _ => false,
    }
}

/// An endpoint, and then a protocol, that is no text is refused.
pub proof fn wrong_exporters_are_told(name: Seq<char>, props: Fields, answers: AnswersView)
    requires
        reads_up_to_origins(props),
        may_be_selector(props, answers),
    ensures
        !may_be_text(props, "otlp-endpoint"@) ==> refuses(
            definition("server"@, name, props, answers),
            server_words(name, "otlp-endpoint"@, "a string"@, lookup(props, "otlp-endpoint"@)->0),
        ),
        may_be_text(props, "otlp-endpoint"@) && !may_be_text(props, "otlp-protocol"@) ==> refuses(
            definition("server"@, name, props, answers),
            server_words(name, "otlp-protocol"@, "a string"@, lookup(props, "otlp-protocol"@)->0),
        ),
{
    origins_are_read(name, props);
}

/// Whether all of a server's properties but its tools can be read.
pub open spec fn reads_up_to_tools(props: Fields, answers: AnswersView) -> bool {
    &&& reads_up_to_origins(props)
    &&& may_be_selector(props, answers)
    &&& may_be_text(props, "otlp-endpoint"@)
    &&& may_be_text(props, "otlp-protocol"@)
}

/// The first entry of a table that stops the reading is where it stops.
proof fn first_entry_that_stops(server: Seq<char>, table: Fields, answers: AnswersView, i: int, halt: HaltView)
    requires
        0 <= i < table.len(),
        tool_entry(server, table[i], answers) == Err::<ToolConfigView, HaltView>(halt),
        forall|j: int| 0 <= j < i ==> tool_entry(server, #[trigger] table[j], answers) is Ok,
    ensures
        tool_table(server, table, answers) == Err::<Seq<ToolConfigView>, HaltView>(halt),
    decreases table.len(),
{
    if i > 0 {
        let rest = table.drop_first();
        assert(tool_entry(server, table[0], answers) is Ok);
        assert(rest[i - 1] == table[i]);
        assert forall|j: int| 0 <= j < i - 1 implies tool_entry(server, #[trigger] rest[j], answers) is Ok by {
            assert(rest[j] == table[j + 1]);
        }
        first_entry_that_stops(server, rest, answers, i - 1, halt);
    }
}

/// Whether an entry of a table is a tool that is accepted.
pub open spec fn is_accepted_entry(server: Seq<char>, entry: (Seq<char>, JsonView), answers: AnswersView) -> bool {
    entry.1 matches JsonView::Object(props) && tool_properties(server, entry.0, props, answers) is Ok
}

/// Tools that are no table are refused; of a table the first tool that is none, or that is
/// refused, is told, and the first question of a tool is asked.
pub proof fn wrong_tools_are_told(
    name: Seq<char>,
    props: Fields,
    answers: AnswersView,
    table: Fields,
    i: int,
)
    requires
        reads_up_to_tools(props, answers),
        lookup(props, "tool"@) == Some(JsonView::Object(table)),
        0 <= i < table.len(),
        !is_accepted_entry(name, table[i], answers),
        forall|j: int| 0 <= j < i ==> is_accepted_entry(name, #[trigger] table[j], answers),
    ensures
        match table[i].1 {
            JsonView::Object(tool) => definition("server"@, name, props, answers) == Err::<
                McpServerConfigView,
                HaltView,
            >(tool_properties(name, table[i].0, tool, answers)->Err_0),
            got => refuses(
                definition("server"@, name, props, answers),
                "Server '"@ + name + "': tool '"@ + table[i].0 + "'"@ + " must be a table, got "@ + written(got),
            ),
        },
{
    origins_are_read(name, props);
    let halt = tool_entry(name, table[i], answers)->Err_0;
    assert forall|j: int| 0 <= j < i implies tool_entry(name, #[trigger] table[j], answers) is Ok by {
        assert(is_accepted_entry(name, table[j], answers));
    }
    first_entry_that_stops(name, table, answers, i, halt);
}

/// Tools that are no table are refused.
pub proof fn tools_need_a_table(name: Seq<char>, props: Fields, answers: AnswersView)
    requires
        reads_up_to_tools(props, answers),
        lookup(props, "tool"@) is Some,
        !(lookup(props, "tool"@)->0 is Object),
    ensures
        refuses(
            definition("server"@, name, props, answers),
            server_words(name, "tool"@, "a table"@, lookup(props, "tool"@)->0),
        ),
{
    origins_are_read(name, props);
}

/// A server that has neither a tool nor a selector is refused; so is one with properties that
/// are not known, and these are listed.
pub proof fn servers_expose_something(name: Seq<char>, props: Fields, answers: AnswersView)
    requires
        reads_up_to_tools(props, answers),
        tools_property(name, props, answers) is Ok,
    ensures
        ({
            let bare = lookup(props, "component-selector"@) is None && tools_property(name, props, answers)->Ok_0.len()
                == 0;
            &&& bare ==> refuses(
                definition("server"@, name, props, answers),
                "Server '"@ + name + "' has no tools and no component-selector. At least one must be specified."@,
            )
            &&& !bare && unknown_keys(props, server_keys()).len() > 0 ==> refuses(
                definition("server"@, name, props, answers),
                "Server '"@ + name + "' has unknown properties: "@ + quoted_list(unknown_keys(props, server_keys())),
            )
        }),
{
    origins_are_read(name, props);
}

/// Of a tool's three names the first that is no text is refused.
pub proof fn wrong_names_are_told(server: Seq<char>, tool: Seq<char>, props: Fields, answers: AnswersView)
    ensures
        !may_be_text(props, "component"@) ==> refuses(
            tool_properties(server, tool, props, answers),
            tool_words(server, tool, "component"@, "a string"@, lookup(props, "component"@)->0),
        ),
        may_be_text(props, "component"@) && !may_be_text(props, "function"@) ==> refuses(
            tool_properties(server, tool, props, answers),
            tool_words(server, tool, "function"@, "a string"@, lookup(props, "function"@)->0),
        ),
        may_be_text(props, "component"@) && may_be_text(props, "function"@) && !may_be_text(props, "channel"@)
            ==> refuses(
            tool_properties(server, tool, props, answers),
            tool_words(server, tool, "channel"@, "a string"@, lookup(props, "channel"@)->0),
        ),
{
}

/// Whether a tool's three names can be read.
pub open spec fn reads_names(props: Fields) -> bool {
    may_be_text(props, "component"@) && may_be_text(props, "function"@) && may_be_text(props, "channel"@)
}

/// A parameter mapping that is no object is refused; so is an encoding, of which else the
/// runtime is asked, and what it finds wrong is told.
pub proof fn encodings_are_asked_about(server: Seq<char>, tool: Seq<char>, props: Fields, answers: AnswersView)
    requires
        reads_names(props),
    ensures
        !may_be_block(props, "param-mapping"@) ==> refuses(
            tool_properties(server, tool, props, answers),
            tool_words(server, tool, "param-mapping"@, "an object"@, lookup(props, "param-mapping"@)->0),
        ),
        may_be_block(props, "param-mapping"@) && lookup(props, "param-encoding"@) is Some ==> match lookup(
            props,
            "param-encoding"@,
        )->0 {
            JsonView::Object(block) => match lookup(answers.param_encodings, tool) {
                None => asks(
                    tool_properties(server, tool, props, answers),
                    QuestionView::ParamEncoding { tool, block },
                ),
                Some(Some(e)) => refuses(
                    tool_properties(server, tool, props, answers),
                    "Server '"@ + server + "': tool '"@ + tool + "'"@ + " '"@ + "param-encoding"@ + "': "@ + e,
                ),
                Some(None) => true,
            },
            got => refuses(
                tool_properties(server, tool, props, answers),
                tool_words(server, tool, "param-encoding"@, "an object"@, got),
            ),
        },
{
}

/// A decoding that is no object is refused; of any other the runtime is asked, and what it
/// finds wrong is told.
pub proof fn decodings_are_asked_about(server: Seq<char>, tool: Seq<char>, props: Fields, answers: AnswersView)
    requires
        reads_names(props),
        may_be_block(props, "param-mapping"@),
        may_be_accepted_block(props, "param-encoding"@, answers.param_encodings, tool),
        lookup(props, "result-decoding"@) is Some,
    ensures
        match lookup(props, "result-decoding"@)->0 {
            JsonView::Object(block) => match lookup(answers.result_decodings, tool) {
                None => asks(
                    tool_properties(server, tool, props, answers),
                    QuestionView::ResultDecoding { tool, block },
                ),
                Some(Some(e)) => refuses(
                    tool_properties(server, tool, props, answers),
                    "Server '"@ + server + "': tool '"@ + tool + "'"@ + " '"@ + "result-decoding"@ + "': "@ + e,
                ),
                Some(None) => true,
            },
            got => refuses(
                tool_properties(server, tool, props, answers),
                tool_words(server, tool, "result-decoding"@, "an object"@, got),
            ),
        },
{
}

/// Whether a tool's names and mappings can be read.
pub open spec fn reads_mappings(tool: Seq<char>, props: Fields, answers: AnswersView) -> bool {
    &&& reads_names(props)
    &&& may_be_block(props, "param-mapping"@)
    &&& may_be_accepted_block(props, "param-encoding"@, answers.param_encodings, tool)
    &&& may_be_accepted_block(props, "result-decoding"@, answers.result_decodings, tool)
}

/// A tool that neither a component's function nor a channel backs, or both, is refused, and
/// told what is amiss; so is a channel's tool with mappings or without an input schema.
pub proof fn tools_need_a_target(server: Seq<char>, tool: Seq<char>, props: Fields, answers: AnswersView)
    requires
        reads_mappings(tool, props, answers),
        !is_component_backed(props),
        !is_channel_backed(props),
    ensures
        ({
            let read = tool_properties(server, tool, props, answers);
            let about = "Server '"@ + server + "': tool '"@ + tool + "'"@;
            let component = lookup(props, "component"@) is Some;
            let function = lookup(props, "function"@) is Some;
            let mapped = lookup(props, "param-mapping"@) is Some || lookup(props, "param-encoding"@) is Some || lookup(
                props,
                "result-decoding"@,
            ) is Some || lookup(props, "result-mapping"@) is Some;
            if lookup(props, "channel"@) is Some {
                if component || function {
                    refuses(read, about + " cannot have both 'component'/'function' and 'channel'"@)
                } else if mapped {
                    refuses(
                        read,
                        about
                            + " has 'param-mapping', 'param-encoding', 'result-decoding', or 'result-mapping' but those apply to component-backed tools only; for channel-backed tools, subscriptions own any mappings"@,
                    )
                } else {
                    refuses(
                        read,
                        "Server '"@ + server + "': channel-backed tool '"@ + tool + "' requires 'input-schema'"@,
                    )
                }
            } else if component {
                refuses(read, about + " has 'component' but missing 'function'"@)
            } else if function {
                refuses(read, about + " has 'function' but missing 'component'"@)
            } else {
                refuses(read, about + " must have either 'component'/'function' or 'channel'"@)
            }
        }),
{
}

/// A description that is no text is refused.
pub proof fn wrong_descriptions_are_told(server: Seq<char>, tool: Seq<char>, props: Fields, answers: AnswersView)
    requires
        reads_mappings(tool, props, answers),
        is_component_backed(props) || is_channel_backed(props),
        !may_be_text(props, "description"@),
    ensures
        refuses(
            tool_properties(server, tool, props, answers),
            tool_words(server, tool, "description"@, "a string"@, lookup(props, "description"@)->0),
        ),
{
}

/// A list of entries that is none is refused, and of one that is the first item that is no
/// text.
pub proof fn wrong_lists_are_told(
    server: Seq<char>,
    tool: Seq<char>,
    key: Seq<char>,
    direction: PropagationDirection,
    props: Fields,
    answers: AnswersView,
)
    ensures
        ({
            let read = propagation_property(tool_context(server, tool), key, direction, props, answers);
            match lookup(props, key) {
                None => read matches Ok(headers) && headers.len() == 0,
                Some(JsonView::Array(items)) => forall|i: int|
                    0 <= i < items.len() && !((#[trigger] items[i]) is Str) && (forall|j: int|
                        0 <= j < i ==> (#[trigger] items[j]) is Str) ==> refuses(
                        read,
                        "Server '"@ + server + "': tool '"@ + tool + "'"@ + " '"@ + key + "' entries must be strings, got "@
                            + written(items[i]),
                    ),
                Some(got) => refuses(read, tool_words(server, tool, key, "an array of strings"@, got)),
            }
        }),
{
    if let Some(JsonView::Array(items)) = lookup(props, key) {
        let complaint = tool_context(server, tool) + " '"@ + key + "' entries must be strings, got "@;
        assert forall|i: int|
            0 <= i < items.len() && !((#[trigger] items[i]) is Str) && (forall|j: int|
                0 <= j < i ==> (#[trigger] items[j]) is Str) implies texts_of(complaint, items) == Err::<
            Seq<Seq<char>>,
            Seq<char>,
        >(complaint + written(items[i])) by {
            first_item_that_is_no_text(complaint, items, i);
        }
    }
}

/// Of an entry the runtime is asked; what it finds wrong is told, and so is what is wrong with
/// the side that has to be a `_meta` key.
pub proof fn entries_are_asked_about(
    server: Seq<char>,
    tool: Seq<char>,
    key: Seq<char>,
    direction: PropagationDirection,
    entry: Seq<char>,
    answers: AnswersView,
)
    ensures
        ({
            let read = propagation_entry(tool_context(server, tool), key, direction, entry, answers);
            let about = "Server '"@ + server + "': tool '"@ + tool + "'"@ + " '"@ + key + "' entry '"@ + entry;
            match lookup(answers.propagations, entry) {
                None => asks(read, QuestionView::Propagation { entry }),
                Some(ReadingView::Refused(e)) => refuses(read, about + "': "@ + e),
                Some(ReadingView::Header(header)) => match key_verdict(side_of(direction, header)) {
                    Ok(_) => read == Ok::<PropagatedHeaderView, HaltView>(header),
                    Err(e) => refuses(
                        read,
                        about + "': '"@ + side_of(direction, header) + "' is not a valid MCP _meta key: "@ + e,
                    ),
                },
            }
        }),
{
}

/// Of the entries that write over a mapped header from another source the first is told; else
/// the properties that are not known are listed.
pub proof fn clashes_are_told(
    server: Seq<char>,
    tool: ToolConfigView,
    props: Fields,
    mapping: Fields,
    headers: Fields,
    i: int,
)
    requires
        tool.target matches ToolTargetView::Component { mapping: m, .. } && m.result_mapping == Some(
            JsonView::Object(mapping),
        ),
        lookup(mapping, "headers"@) == Some(JsonView::Object(headers)),
        0 <= i < tool.propagate_result_meta.len(),
        lookup(headers, tool.propagate_result_meta[i].target) is Some,
        tool.propagate_result_meta[i].source != tool.propagate_result_meta[i].target,
        forall|j: int|
            0 <= j < i && lookup(headers, (#[trigger] tool.propagate_result_meta[j]).target) is Some
                ==> tool.propagate_result_meta[j].source == tool.propagate_result_meta[j].target,
    ensures
        ({
            let entry = tool.propagate_result_meta[i];
            assembled_tool(server, tool, props) == Err::<ToolConfigView, Seq<char>>(
                "Server '"@ + server + "': tool '"@ + tool.name + "'"@ + ": '"@ + entry.target
                    + "' is written by 'result-mapping.headers' but overridden by 'propagate-result-meta' entry '"@
                    + entry.source + " as "@ + entry.target + "'"@,
            )
        }),
{
    first_clash(headers, tool.propagate_result_meta, i);
}

/// The first entry that writes over a mapped header is the one that is found.
proof fn first_clash(headers: Fields, entries: Seq<PropagatedHeaderView>, i: int)
    requires
        0 <= i < entries.len(),
        lookup(headers, entries[i].target) is Some,
        entries[i].source != entries[i].target,
        forall|j: int|
            0 <= j < i && lookup(headers, (#[trigger] entries[j]).target) is Some ==> entries[j].source
                == entries[j].target,
    ensures
        first_override(headers, entries) == Some(entries[i]),
    decreases entries.len(),
{
    if i > 0 {
        let rest = entries.drop_first();
        assert(rest[i - 1] == entries[i]);
        assert forall|j: int| 0 <= j < i - 1 && lookup(headers, (#[trigger] rest[j]).target) is Some implies rest[j].source
            == rest[j].target by {
            assert(rest[j] == entries[j + 1]);
        }
        first_clash(headers, rest, i - 1);
        assert(lookup(headers, entries[0].target) is Some ==> entries[0].source == entries[0].target);
    }
}

/// The properties of a tool that are not known are listed.
pub proof fn unknown_tool_properties_are_listed(server: Seq<char>, tool: ToolConfigView, props: Fields)
    requires
        tool.propagate_result_meta.len() == 0,
        unknown_keys(props, tool_keys()).len() > 0,
    ensures
        assembled_tool(server, tool, props) == Err::<ToolConfigView, Seq<char>>(
            "Server '"@ + server + "': tool '"@ + tool.name + "'"@ + " has unknown properties: "@ + quoted_list(
                unknown_keys(props, tool_keys()),
            ),
        ),
{
}

/// Which keys are not known.
pub open spec fn is_unknown(known: Seq<Seq<char>>) -> spec_fn((Seq<char>, JsonView)) -> bool {
    |field: (Seq<char>, JsonView)| !known.contains(field.0)
}

/// One member more is one key more, where that is not known.
proof fn unknown_keys_from_the_end(fields: Fields, known: Seq<Seq<char>>)
    requires
        fields.len() > 0,
    ensures
        unknown_keys(fields, known) == (if known.contains(fields.last().0) {
            unknown_keys(fields.drop_last(), known)
        } else {
            unknown_keys(fields.drop_last(), known).push(fields.last().0)
        }),
    decreases fields.len(),
{
    let rest = fields.drop_first();
    let front = fields.drop_last();
    if fields.len() == 1 {
        assert(rest =~= Seq::empty());
        assert(front =~= Seq::empty());
        assert(unknown_keys(rest, known) =~= Seq::empty());
    } else {
        unknown_keys_from_the_end(rest, known);
        assert(rest.last() == fields.last());
        assert(rest.drop_last() =~= front.drop_first());
        assert(front[0] == fields[0]);
    }
    assert(unknown_keys(fields, known) =~= if known.contains(fields.last().0) {
        unknown_keys(front, known)
    } else {
        unknown_keys(front, known).push(fields.last().0)
    });
}

/// The unknown keys are those of the members whose keys are not known, in their order.
pub proof fn unknown_keys_are_those_not_known(fields: Fields, known: Seq<Seq<char>>)
    ensures
        ({
            let members = fields.filter(is_unknown(known));
            unknown_keys(fields, known) == Seq::new(members.len(), |i: int| members[i].0)
        }),
    decreases fields.len(),
{
    reveal(Seq::filter);
    let members = fields.filter(is_unknown(known));
    if fields.len() > 0 {
        unknown_keys_are_those_not_known(fields.drop_last(), known);
        unknown_keys_from_the_end(fields, known);
    }
    assert(unknown_keys(fields, known) =~= Seq::new(members.len(), |i: int| members[i].0));
}

/// A list is written in brackets, with commas between its texts, each in quotes.
pub proof fn lists_are_written_in_brackets(texts: Seq<Seq<char>>, text: Seq<char>)
    ensures
        quoted_list(Seq::empty()) == "["@ + Seq::<char>::empty() + "]"@,
        quoted_list(seq![text]) == "["@ + quoted(text) + "]"@,
        texts.len() > 0 ==> exists|front: Seq<char>|
            quoted_list(texts) == #[trigger] ("["@ + front + "]"@) && quoted_list(texts.push(text)) == "["@ + (front
                + ", "@ + quoted(text)) + "]"@,
{
    assert(Seq::new(Seq::<Seq<char>>::empty().len(), |i: int| quoted(Seq::<Seq<char>>::empty()[i])) =~= Seq::<
        Seq<char>,
    >::empty());
    let one = Seq::new(seq![text].len(), |i: int| quoted(seq![text][i]));
    assert(one =~= seq![quoted(text)]);
    if texts.len() > 0 {
        let all = Seq::new(texts.len(), |i: int| quoted(texts[i]));
        let more = Seq::new(texts.push(text).len(), |i: int| quoted(texts.push(text)[i]));
        assert(more.drop_last() =~= all);
        assert(more.last() == quoted(text));
        let front = comma_separated(all);
        assert(quoted_list(texts) == "["@ + front + "]"@);
        assert(quoted_list(texts.push(text)) == "["@ + (front + ", "@ + quoted(text)) + "]"@);
    }
}

} // verus!
