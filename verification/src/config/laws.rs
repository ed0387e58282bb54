//! What holds of every definition that is accepted, and of the questions on the way.

use vstd::prelude::*;

use crate::config::{claims_mcp_servers, holds, selects, CategoryClaim, Operator, Selector};
use crate::config::model::{
    AnswersView, HaltView, PropagatedHeaderView, PropagationDirection, QuestionView, ToolConfigView, ToolTargetView,
};
use crate::config::rules::{
    definition, first_override, mapped_headers, meta_side, overrides, port_property, propagation_entries,
    propagation_entry, propagation_property, selector_property, server_keys, target_properties, texts_of, tool_context,
    tool_entry, tool_keys, tool_properties, tool_table, tools_property, unknown_keys,
};
use crate::json::{ascending, Fields, JsonView};
use crate::meta_key::key_verdict;
use crate::pairs::lookup;
use crate::text::precedes_is_irreflexive;

pub mod questions;
pub mod refusals;
pub mod servers;
pub mod tools;
pub mod views;

verus! {

/// Whether the `_meta` sides of entries are `_meta` keys.
pub open spec fn meta_sides_are_keys(direction: PropagationDirection, entries: Seq<PropagatedHeaderView>) -> bool {
    forall|i: int| 0 <= i < entries.len() ==> key_verdict(meta_side(direction, #[trigger] entries[i])) is Ok
}

/// Whether none of the entries writes over a mapped header from another source.
pub open spec fn overrides_nothing(headers: Fields, entries: Seq<PropagatedHeaderView>) -> bool {
    forall|i: int| 0 <= i < entries.len() ==> !overrides(headers, #[trigger] entries[i])
}

/// Whether every member has a known key.
pub open spec fn only_known_keys(fields: Fields, known: Seq<Seq<char>>) -> bool {
    forall|i: int| 0 <= i < fields.len() ==> known.contains((#[trigger] fields[i]).0)
}

/// Whether a tool goes with the properties it was read from: it has no unknown ones,
/// its `_meta` sides are `_meta` keys, and no result `_meta` entry writes over a mapped
/// header from another source.
pub open spec fn sound_tool(tool: ToolConfigView, props: Fields) -> bool {
    &&& only_known_keys(props, tool_keys())
    &&& meta_sides_are_keys(PropagationDirection::Inbound, tool.propagate_request_meta)
    &&& meta_sides_are_keys(PropagationDirection::Outbound, tool.propagate_result_meta)
    &&& overrides_nothing(mapped_headers(tool.target), tool.propagate_result_meta)
    &&& match tool.target {
        ToolTargetView::Component { component, function, .. } => lookup(props, "channel"@) is None && lookup(
            props,
            "component"@,
        ) == Some(JsonView::Str(component)) && lookup(props, "function"@) == Some(JsonView::Str(function)),
        ToolTargetView::Channel { channel, input_schema, .. } => lookup(props, "component"@) is None && lookup(
            props,
            "function"@,
        ) is None && lookup(props, "channel"@) == Some(JsonView::Str(channel)) && lookup(props, "input-schema"@)
            == Some(input_schema) && lookup(props, "param-mapping"@) is None && lookup(props, "param-encoding"@) is None
            && lookup(props, "result-decoding"@) is None && lookup(props, "result-mapping"@) is None,
    }
}

/// Whether tools are those of a table, in its order and under its names.
pub open spec fn tools_of_table(tools: Seq<ToolConfigView>, table: Fields) -> bool {
    &&& tools.len() == table.len()
    &&& forall|i: int|
        0 <= i < tools.len() ==> (#[trigger] tools[i]).name == table[i].0 && (table[i].1 matches JsonView::Object(props)
            && sound_tool(tools[i], props))
}

/// Whether tools are those that a server's properties define.
pub open spec fn tools_of_server(tools: Seq<ToolConfigView>, props: Fields) -> bool {
    match lookup(props, "tool"@) {
        None => tools.len() == 0,
        Some(JsonView::Object(table)) => tools_of_table(tools, table),
        _ => false,
    }
}

/// No key is unknown if and only if every member has a known key.
pub proof fn unknown_keys_are_found(fields: Fields, known: Seq<Seq<char>>)
    ensures
        unknown_keys(fields, known).len() == 0 <==> only_known_keys(fields, known),
    decreases fields.len(),
{
    if fields.len() > 0 {
        let rest = fields.drop_first();
        unknown_keys_are_found(rest, known);
        if only_known_keys(fields, known) {
            assert(known.contains(fields[0].0));
            assert forall|i: int| 0 <= i < rest.len() implies known.contains((#[trigger] rest[i]).0) by {
                assert(rest[i] == fields[i + 1]);
            }
        }
        if known.contains(fields[0].0) && only_known_keys(rest, known) {
            assert forall|i: int| 0 <= i < fields.len() implies known.contains((#[trigger] fields[i]).0) by {
                if i > 0 {
                    assert(fields[i] == rest[i - 1]);
                }
            }
        }
    }
}

/// An entry that writes over a mapped header from another source is found wherever it
/// stands.
pub proof fn overrides_are_found(headers: Fields, entries: Seq<PropagatedHeaderView>)
    ensures
        first_override(headers, entries) is None <==> overrides_nothing(headers, entries),
    decreases entries.len(),
{
    if entries.len() > 0 {
        let rest = entries.drop_first();
        overrides_are_found(headers, rest);
        if overrides_nothing(headers, entries) {
            assert(!overrides(headers, entries[0]));
            assert forall|i: int| 0 <= i < rest.len() implies !overrides(headers, #[trigger] rest[i]) by {
                assert(rest[i] == entries[i + 1]);
            }
        }
        if !overrides(headers, entries[0]) && overrides_nothing(headers, rest) {
            assert forall|i: int| 0 <= i < entries.len() implies !overrides(headers, #[trigger] entries[i]) by {
                if i > 0 {
                    assert(entries[i] == rest[i - 1]);
                }
            }
        }
    }
}

/// The `_meta` side of every entry that is read is a `_meta` key.
proof fn read_entries_are_keys(
    context: Seq<char>,
    key: Seq<char>,
    direction: PropagationDirection,
    entries: Seq<Seq<char>>,
    answers: AnswersView,
)
    requires
        propagation_entries(context, key, direction, entries, answers) is Ok,
    ensures
        meta_sides_are_keys(direction, propagation_entries(context, key, direction, entries, answers)->Ok_0),
    decreases entries.len(),
{
    if entries.len() > 0 {
        let rest = entries.drop_first();
        read_entries_are_keys(context, key, direction, rest, answers);
        let read = propagation_entries(context, key, direction, entries, answers)->Ok_0;
        let tail = propagation_entries(context, key, direction, rest, answers)->Ok_0;
        assert forall|i: int| 0 <= i < read.len() implies key_verdict(
            meta_side(direction, #[trigger] read[i]),
        ) is Ok by {
            if i > 0 {
                assert(read[i] == tail[i - 1]);
            }
        }
    }
}

/// The `_meta` side of every entry of a property is a `_meta` key.
proof fn property_entries_are_keys(
    context: Seq<char>,
    key: Seq<char>,
    direction: PropagationDirection,
    props: Fields,
    answers: AnswersView,
)
    requires
        propagation_property(context, key, direction, props, answers) is Ok,
    ensures
        meta_sides_are_keys(direction, propagation_property(context, key, direction, props, answers)->Ok_0),
{
    if let Some(JsonView::Array(items)) = lookup(props, key) {
        let entries = texts_of(context + " '"@ + key + "' entries must be strings, got "@, items)->Ok_0;
        read_entries_are_keys(context, key, direction, entries, answers);
    }
}

/// Every tool that is accepted is sound, and has the name that it was defined under.
pub proof fn accepted_tools_are_sound(server: Seq<char>, tool: Seq<char>, props: Fields, answers: AnswersView)
    requires
        tool_properties(server, tool, props, answers) is Ok,
    ensures
        tool_properties(server, tool, props, answers)->Ok_0.name == tool,
        sound_tool(tool_properties(server, tool, props, answers)->Ok_0, props),
{
    let context = tool_context(server, tool);
    let read = tool_properties(server, tool, props, answers)->Ok_0;
    property_entries_are_keys(context, "propagate-request-meta"@, PropagationDirection::Inbound, props, answers);
    property_entries_are_keys(context, "propagate-result-meta"@, PropagationDirection::Outbound, props, answers);
    overrides_are_found(mapped_headers(read.target), read.propagate_result_meta);
    unknown_keys_are_found(props, tool_keys());
}

/// Every tool of a table that is accepted is sound, and has its name in the table.
pub proof fn accepted_tables_are_sound(server: Seq<char>, table: Fields, answers: AnswersView)
    requires
        tool_table(server, table, answers) is Ok,
    ensures
        tools_of_table(tool_table(server, table, answers)->Ok_0, table),
    decreases table.len(),
{
    if table.len() > 0 {
        let rest = table.drop_first();
        accepted_tables_are_sound(server, rest, answers);
        let tools = tool_table(server, table, answers)->Ok_0;
        let tail = tool_table(server, rest, answers)->Ok_0;
        accepted_tools_are_sound(server, table[0].0, table[0].1->Object_0, answers);
        assert forall|i: int| 0 <= i < tools.len() implies (#[trigger] tools[i]).name == table[i].0 && (
        table[i].1 matches JsonView::Object(props) && sound_tool(tools[i], props)) by {
            if i > 0 {
                assert(tools[i] == tail[i - 1]);
                assert(rest[i - 1] == table[i]);
            }
        }
    }
}

/// Every server that is accepted is in the category `server`, has the name and the port
/// that it was defined with, exposes something, has no unknown property, and has the tools
/// of its table, each of them sound.
pub proof fn accepted_servers_are_sound(category: Seq<char>, name: Seq<char>, props: Fields, answers: AnswersView)
    requires
        definition(category, name, props, answers) is Ok,
    ensures
        category == "server"@,
        ({
            let server = definition(category, name, props, answers)->Ok_0;
            &&& server.name == name
            &&& port_property(name, props) == Ok::<u16, Seq<char>>(server.port)
            &&& server.component_selector is Some || server.tools.len() > 0
            &&& only_known_keys(props, server_keys())
            &&& tools_of_server(server.tools, props)
        }),
{
    unknown_keys_are_found(props, server_keys());
    if let Some(JsonView::Object(table)) = lookup(props, "tool"@) {
        accepted_tables_are_sound(name, table, answers);
    }
}

/// No two tools of an accepted table have one name.
pub proof fn accepted_tools_have_distinct_names(server: Seq<char>, table: Fields, answers: AnswersView, i: int, j: int)
    requires
        ascending(table),
        tool_table(server, table, answers) is Ok,
        0 <= i < j < table.len(),
    ensures
        tool_table(server, table, answers)->Ok_0[i].name != tool_table(server, table, answers)->Ok_0[j].name,
{
    accepted_tables_are_sound(server, table, answers);
    precedes_is_irreflexive(table[i].0);
    let tools = tool_table(server, table, answers)->Ok_0;
    assert(tools[i].name == table[i].0 && tools[j].name == table[j].0);
}

/// A definition with a property that is not known is never accepted.
pub proof fn unknown_properties_are_refused(
    category: Seq<char>,
    name: Seq<char>,
    props: Fields,
    answers: AnswersView,
    i: int,
)
    requires
        0 <= i < props.len(),
        !server_keys().contains(props[i].0),
    ensures
        definition(category, name, props, answers) is Err,
{
    if definition(category, name, props, answers) is Ok {
        accepted_servers_are_sound(category, name, props, answers);
        assert(server_keys().contains(props[i].0));
    }
}

/// A claim on MCP servers is one in the category `server`, and matches the definitions whose
/// type is `mcp`, and no others.
pub proof fn claims_match_mcp_servers(claim: CategoryClaim, properties: Seq<(Seq<char>, Option<Seq<char>>)>)
    requires
        claims_mcp_servers(claim),
    ensures
        claim.category@ == "server"@,
        claim.selector is Some,
        selects(claim.selector->0, properties) <==> lookup(properties, "type"@) == Some(Some("mcp"@)),
{
    let selector = claim.selector->0;
    assert(selects(selector, properties) ==> holds(selector.conditions@[0], properties));
}

/// A selector matches properties if and only if each of its conditions names a property that is
/// there with that text.
pub proof fn selectors_match_by_every_condition(
    selector: Selector,
    properties: Seq<(Seq<char>, Option<Seq<char>>)>,
)
    ensures
        selects(selector, properties) <==> forall|i: int|
            0 <= i < selector.conditions@.len() ==> ((#[trigger] selector.conditions@[i]).operator matches Operator::Equals(
                value,
            ) && lookup(properties, selector.conditions@[i].key@) == Some(Some(value@))),
{
    assert forall|i: int| 0 <= i < selector.conditions@.len() implies (holds(
        #[trigger] selector.conditions@[i],
        properties,
    ) <==> (selector.conditions@[i].operator matches Operator::Equals(value) && lookup(
        properties,
        selector.conditions@[i].key@,
    ) == Some(Some(value@)))) by {}
}

/// Whether the answers lack the one to a question.
pub open spec fn unanswered(answers: AnswersView, question: QuestionView) -> bool {
    match question {
        QuestionView::Selector { expression } => lookup(answers.selectors, expression) is None,
        QuestionView::ParamEncoding { tool, .. } => lookup(answers.param_encodings, tool) is None,
        QuestionView::ResultDecoding { tool, .. } => lookup(answers.result_decodings, tool) is None,
        QuestionView::Propagation { entry } => lookup(answers.propagations, entry) is None,
    }
}

/// Entries are asked about only where the answer is lacking.
proof fn asked_entries_are_unanswered(
    context: Seq<char>,
    key: Seq<char>,
    direction: PropagationDirection,
    entries: Seq<Seq<char>>,
    answers: AnswersView,
)
    ensures
        propagation_entries(context, key, direction, entries, answers) matches Err(HaltView::Ask(q)) ==> unanswered(
            answers,
            q,
        ),
    decreases entries.len(),
{
    if entries.len() > 0 {
        asked_entries_are_unanswered(context, key, direction, entries.drop_first(), answers);
    }
}

/// What a tool's definition asks, the answers lack.
proof fn asked_properties_are_unanswered(server: Seq<char>, tool: Seq<char>, props: Fields, answers: AnswersView)
    ensures
        tool_properties(server, tool, props, answers) matches Err(HaltView::Ask(q)) ==> unanswered(answers, q),
{
    let context = tool_context(server, tool);
    if let Some(JsonView::Array(items)) = lookup(props, "propagate-request-meta"@) {
        let complaint = context + " '"@ + "propagate-request-meta"@ + "' entries must be strings, got "@;
        if let Ok(entries) = texts_of(complaint, items) {
            asked_entries_are_unanswered(
                context,
                "propagate-request-meta"@,
                PropagationDirection::Inbound,
                entries,
                answers,
            );
        }
    }
    if let Some(JsonView::Array(items)) = lookup(props, "propagate-result-meta"@) {
        let complaint = context + " '"@ + "propagate-result-meta"@ + "' entries must be strings, got "@;
        if let Ok(entries) = texts_of(complaint, items) {
            asked_entries_are_unanswered(
                context,
                "propagate-result-meta"@,
                PropagationDirection::Outbound,
                entries,
                answers,
            );
        }
    }
}

/// What a table's tools ask, the answers lack.
proof fn asked_tables_are_unanswered(server: Seq<char>, table: Fields, answers: AnswersView)
    ensures
        tool_table(server, table, answers) matches Err(HaltView::Ask(q)) ==> unanswered(answers, q),
    decreases table.len(),
{
    if table.len() > 0 {
        asked_tables_are_unanswered(server, table.drop_first(), answers);
        if let JsonView::Object(props) = table[0].1 {
            asked_properties_are_unanswered(server, table[0].0, props, answers);
        }
    }
}

/// A question that is asked is one that the answers lack: with its answer at hand it is
/// not asked again.
pub proof fn asked_questions_are_unanswered(category: Seq<char>, name: Seq<char>, props: Fields, answers: AnswersView)
    ensures
        definition(category, name, props, answers) matches Err(HaltView::Ask(q)) ==> unanswered(answers, q),
{
    if let Some(JsonView::Object(table)) = lookup(props, "tool"@) {
        asked_tables_are_unanswered(name, table, answers);
    }
}

/// Whether answers hold all that others hold, with the same meaning.
pub open spec fn extends(more: AnswersView, answers: AnswersView) -> bool {
    &&& forall|k: Seq<char>|
        lookup(answers.selectors, k) is Some ==> #[trigger] lookup(more.selectors, k) == lookup(answers.selectors, k)
    &&& forall|k: Seq<char>|
        lookup(answers.param_encodings, k) is Some ==> #[trigger] lookup(more.param_encodings, k) == lookup(
            answers.param_encodings,
            k,
        )
    &&& forall|k: Seq<char>|
        lookup(answers.result_decodings, k) is Some ==> #[trigger] lookup(more.result_decodings, k) == lookup(
            answers.result_decodings,
            k,
        )
    &&& forall|k: Seq<char>|
        lookup(answers.propagations, k) is Some ==> #[trigger] lookup(more.propagations, k) == lookup(
            answers.propagations,
            k,
        )
}

/// Whether a reading came to an end, and asks nothing.
pub open spec fn settled<T>(read: Result<T, HaltView>) -> bool {
    !(read matches Err(HaltView::Ask(_)))
}

/// More answers change nothing of entries that ask nothing.
proof fn settled_entries_stay(
    context: Seq<char>,
    key: Seq<char>,
    direction: PropagationDirection,
    entries: Seq<Seq<char>>,
    answers: AnswersView,
    more: AnswersView,
)
    requires
        extends(more, answers),
        settled(propagation_entries(context, key, direction, entries, answers)),
    ensures
        propagation_entries(context, key, direction, entries, more) == propagation_entries(
            context,
            key,
            direction,
            entries,
            answers,
        ),
    decreases entries.len(),
{
    if entries.len() > 0 {
        if propagation_entry(context, key, direction, entries[0], answers) is Ok {
            settled_entries_stay(context, key, direction, entries.drop_first(), answers, more);
        }
    }
}

/// More answers change nothing of a property that asks nothing.
proof fn settled_property_stays(
    context: Seq<char>,
    key: Seq<char>,
    direction: PropagationDirection,
    props: Fields,
    answers: AnswersView,
    more: AnswersView,
)
    requires
        extends(more, answers),
        settled(propagation_property(context, key, direction, props, answers)),
    ensures
        propagation_property(context, key, direction, props, more) == propagation_property(
            context,
            key,
            direction,
            props,
            answers,
        ),
{
    if let Some(JsonView::Array(items)) = lookup(props, key) {
        if let Ok(entries) = texts_of(context + " '"@ + key + "' entries must be strings, got "@, items) {
            settled_entries_stay(context, key, direction, entries, answers, more);
        }
    }
}

/// More answers change nothing of a tool that asks nothing.
proof fn settled_tool_stays(
    server: Seq<char>,
    tool: Seq<char>,
    props: Fields,
    answers: AnswersView,
    more: AnswersView,
)
    requires
        extends(more, answers),
        settled(tool_properties(server, tool, props, answers)),
    ensures
        tool_properties(server, tool, props, more) == tool_properties(server, tool, props, answers),
{
    let context = tool_context(server, tool);
    assert(target_properties(server, tool, props, more) == target_properties(server, tool, props, answers));
    if settled(
        propagation_property(context, "propagate-request-meta"@, PropagationDirection::Inbound, props, answers),
    ) {
        settled_property_stays(
            context,
            "propagate-request-meta"@,
            PropagationDirection::Inbound,
            props,
            answers,
            more,
        );
    }
    if settled(
        propagation_property(context, "propagate-result-meta"@, PropagationDirection::Outbound, props, answers),
    ) {
        settled_property_stays(
            context,
            "propagate-result-meta"@,
            PropagationDirection::Outbound,
            props,
            answers,
            more,
        );
    }
}

/// More answers change nothing of a table that asks nothing.
proof fn settled_table_stays(server: Seq<char>, table: Fields, answers: AnswersView, more: AnswersView)
    requires
        extends(more, answers),
        settled(tool_table(server, table, answers)),
    ensures
        tool_table(server, table, more) == tool_table(server, table, answers),
    decreases table.len(),
{
    if table.len() > 0 {
        if let JsonView::Object(props) = table[0].1 {
            settled_tool_stays(server, table[0].0, props, answers, more);
        }
        if tool_entry(server, table[0], answers) is Ok {
            settled_table_stays(server, table.drop_first(), answers, more);
        }
    }
}

/// A definition that asks nothing is read the same way with more answers.
pub proof fn settled_definitions_stay(
    category: Seq<char>,
    name: Seq<char>,
    props: Fields,
    answers: AnswersView,
    more: AnswersView,
)
    requires
        extends(more, answers),
        settled(definition(category, name, props, answers)),
    ensures
        definition(category, name, props, more) == definition(category, name, props, answers),
{
    if category == "server"@ {
        assert(settled(selector_property(name, props, answers)) ==> selector_property(name, props, more)
            == selector_property(name, props, answers));
        if settled(tools_property(name, props, answers)) {
            if let Some(JsonView::Object(table)) = lookup(props, "tool"@) {
                settled_table_stays(name, table, answers, more);
            }
        }
    }
}

} // verus!
