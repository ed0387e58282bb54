//! What tools are read from, property by property.

use vstd::prelude::*;

use crate::config::laws::{only_known_keys, overrides_are_found, overrides_nothing, unknown_keys_are_found};
use crate::config::model::{
    AnswersView, PropagatedHeaderView, PropagationDirection, ReadingView, ToolTargetView,
};
use crate::config::rules::{
    mapped_headers, overrides, propagation_entries, propagation_property, target_properties, texts_of, tool_context,
    tool_keys, tool_properties,
};
use crate::json::{Fields, JsonView};
use crate::meta_key::key_verdict;
use crate::pairs::lookup;

verus! {

/// Whether a property is not set, or set to a text.
pub open spec fn may_be_text(props: Fields, key: Seq<char>) -> bool {
    lookup(props, key) is None || (lookup(props, key) matches Some(JsonView::Str(_)))
}

/// Whether a text is the one that a property is set to, or there is neither.
pub open spec fn is_text_set(text: Option<Seq<char>>, props: Fields, key: Seq<char>) -> bool {
    match text {
        Some(s) => lookup(props, key) == Some(JsonView::Str(s)),
        None => lookup(props, key) is None,
    }
}

/// Whether a property is not set, or set to a block.
pub open spec fn may_be_block(props: Fields, key: Seq<char>) -> bool {
    lookup(props, key) is None || (lookup(props, key) matches Some(JsonView::Object(_)))
}

/// Whether a block is the one that a property is set to, or there is neither.
pub open spec fn is_block_set(block: Option<Fields>, props: Fields, key: Seq<char>) -> bool {
    match block {
        Some(fields) => lookup(props, key) == Some(JsonView::Object(fields)),
        None => lookup(props, key) is None,
    }
}

/// Whether an item is the text of a propagation entry for which the runtime has named the
/// two sides.
pub open spec fn is_entry_of(header: PropagatedHeaderView, item: JsonView, answers: AnswersView) -> bool {
    item matches JsonView::Str(entry) && lookup(answers.propagations, entry) == Some(ReadingView::Header(header))
}

/// Whether headers are those that the items of a list name, one by one; none where the
/// property is not set.
pub open spec fn are_entries_set(
    headers: Seq<PropagatedHeaderView>,
    props: Fields,
    key: Seq<char>,
    answers: AnswersView,
) -> bool {
    match lookup(props, key) {
        None => headers.len() == 0,
        Some(JsonView::Array(items)) => headers.len() == items.len() && forall|i: int|
            0 <= i < items.len() ==> is_entry_of(headers[i], #[trigger] items[i], answers),
        _ => false,
    }
}

/// The side of an entry that has to be a `_meta` key: of a request its source, of a result
/// its target.
pub open spec fn side_of(direction: PropagationDirection, header: PropagatedHeaderView) -> Seq<char> {
    match direction {
        PropagationDirection::Inbound => header.source,
        PropagationDirection::Outbound => header.target,
    }
}

/// Whether an item is a propagation entry: a text for which the runtime has named two sides,
/// of which the one that has to be is a `_meta` key.
pub open spec fn is_propagation(item: JsonView, direction: PropagationDirection, answers: AnswersView) -> bool {
    item matches JsonView::Str(entry) && (lookup(answers.propagations, entry) matches Some(ReadingView::Header(header))
        && key_verdict(side_of(direction, header)) is Ok)
}

/// Whether a property is not set, or set to a list of propagation entries.
pub open spec fn may_be_propagations(
    props: Fields,
    key: Seq<char>,
    direction: PropagationDirection,
    answers: AnswersView,
) -> bool {
    lookup(props, key) is None || (lookup(props, key) matches Some(JsonView::Array(items)) && forall|i: int|
        0 <= i < items.len() ==> is_propagation(#[trigger] items[i], direction, answers))
}

/// Texts are read item by item, if and only if each item is one.
pub proof fn texts_are_read_item_by_item(complaint: Seq<char>, items: Seq<JsonView>)
    ensures
        texts_of(complaint, items) is Ok <==> forall|i: int| 0 <= i < items.len() ==> (#[trigger] items[i]) is Str,
        texts_of(complaint, items) matches Ok(texts) ==> texts.len() == items.len() && forall|i: int|
            0 <= i < items.len() ==> (#[trigger] items[i]) == JsonView::Str(texts[i]),
    decreases items.len(),
{
    if items.len() > 0 {
        let rest = items.drop_first();
        texts_are_read_item_by_item(complaint, rest);
        if let Ok(texts) = texts_of(complaint, items) {
            let tail = texts_of(complaint, rest)->Ok_0;
            assert forall|i: int| 0 <= i < items.len() implies (#[trigger] items[i]) == JsonView::Str(texts[i]) by {
                if i > 0 {
                    assert(rest[i - 1] == items[i]);
                    assert(texts[i] == tail[i - 1]);
                }
            }
        }
        if forall|i: int| 0 <= i < items.len() ==> (#[trigger] items[i]) is Str {
            assert(items[0] is Str);
            assert forall|i: int| 0 <= i < rest.len() implies (#[trigger] rest[i]) is Str by {
                assert(rest[i] == items[i + 1]);
            }
        }
    }
}

/// Entries are read one by one, if and only if each can be.
proof fn entries_are_read_one_by_one(
    context: Seq<char>,
    key: Seq<char>,
    direction: PropagationDirection,
    entries: Seq<Seq<char>>,
    answers: AnswersView,
)
    ensures
        propagation_entries(context, key, direction, entries, answers) is Ok <==> forall|i: int|
            0 <= i < entries.len() ==> is_propagation(JsonView::Str(#[trigger] entries[i]), direction, answers),
        propagation_entries(context, key, direction, entries, answers) matches Ok(headers) ==> headers.len()
            == entries.len() && forall|i: int|
            0 <= i < entries.len() ==> is_entry_of(headers[i], JsonView::Str(#[trigger] entries[i]), answers),
    decreases entries.len(),
{
    if entries.len() > 0 {
        let rest = entries.drop_first();
        entries_are_read_one_by_one(context, key, direction, rest, answers);
        if let Ok(headers) = propagation_entries(context, key, direction, entries, answers) {
            let tail = propagation_entries(context, key, direction, rest, answers)->Ok_0;
            assert forall|i: int| 0 <= i < entries.len() implies is_entry_of(
                headers[i],
                JsonView::Str(#[trigger] entries[i]),
                answers,
            ) && is_propagation(JsonView::Str(entries[i]), direction, answers) by {
                if i > 0 {
                    assert(rest[i - 1] == entries[i]);
                    assert(headers[i] == tail[i - 1]);
                }
            }
        }
        if forall|i: int|
            0 <= i < entries.len() ==> is_propagation(JsonView::Str(#[trigger] entries[i]), direction, answers) {
            assert(is_propagation(JsonView::Str(entries[0]), direction, answers));
            assert forall|i: int| 0 <= i < rest.len() implies is_propagation(
                JsonView::Str(#[trigger] rest[i]),
                direction,
                answers,
            ) by {
                assert(rest[i] == entries[i + 1]);
            }
        }
    }
}

/// A property that lists propagation entries gives what the runtime names for each, in order,
/// and is read if and only if each item is such an entry.
pub proof fn propagations_are_those_listed(
    context: Seq<char>,
    key: Seq<char>,
    direction: PropagationDirection,
    props: Fields,
    answers: AnswersView,
)
    ensures
        propagation_property(context, key, direction, props, answers) is Ok <==> may_be_propagations(
            props,
            key,
            direction,
            answers,
        ),
        propagation_property(context, key, direction, props, answers) matches Ok(headers) ==> are_entries_set(
            headers,
            props,
            key,
            answers,
        ),
{
    if let Some(JsonView::Array(items)) = lookup(props, key) {
        let complaint = context + " '"@ + key + "' entries must be strings, got "@;
        texts_are_read_item_by_item(complaint, items);
        if let Ok(entries) = texts_of(complaint, items) {
            entries_are_read_one_by_one(context, key, direction, entries, answers);
            let read = propagation_entries(context, key, direction, entries, answers);
            if read is Ok {
                assert forall|i: int| 0 <= i < items.len() implies is_entry_of(
                    read->Ok_0[i],
                    #[trigger] items[i],
                    answers,
                ) && is_propagation(items[i], direction, answers) by {
                    assert(items[i] == JsonView::Str(entries[i]));
                    assert(is_propagation(JsonView::Str(entries[i]), direction, answers));
                    assert(is_entry_of(read->Ok_0[i], JsonView::Str(entries[i]), answers));
                }
            }
            if may_be_propagations(props, key, direction, answers) {
                assert forall|i: int| 0 <= i < entries.len() implies is_propagation(
                    JsonView::Str(#[trigger] entries[i]),
                    direction,
                    answers,
                ) by {
                    assert(items[i] == JsonView::Str(entries[i]));
                }
            }
        } else if may_be_propagations(props, key, direction, answers) {
            assert forall|i: int| 0 <= i < items.len() implies (#[trigger] items[i]) is Str by {
                assert(is_propagation(items[i], direction, answers));
            }
        }
    }
}

/// Whether a key is one that a tool may have.
pub open spec fn is_tool_key(key: Seq<char>) -> bool {
    ||| key == "component"@
    ||| key == "function"@
    ||| key == "channel"@
    ||| key == "input-schema"@
    ||| key == "output-schema"@
    ||| key == "param-mapping"@
    ||| key == "param-encoding"@
    ||| key == "result-decoding"@
    ||| key == "result-mapping"@
    ||| key == "description"@
    ||| key == "propagate-request-meta"@
    ||| key == "propagate-result-meta"@
}

/// The keys of a tool are those twelve.
proof fn tool_keys_are_those(key: Seq<char>)
    ensures
        tool_keys().contains(key) <==> is_tool_key(key),
{
    let keys = tool_keys();
    assert(keys[0] == "component"@ && keys[1] == "function"@ && keys[2] == "channel"@ && keys[3] == "input-schema"@);
    assert(keys[4] == "output-schema"@ && keys[5] == "param-mapping"@ && keys[6] == "param-encoding"@);
    assert(keys[7] == "result-decoding"@ && keys[8] == "result-mapping"@ && keys[9] == "description"@);
    assert(keys[10] == "propagate-request-meta"@ && keys[11] == "propagate-result-meta"@);
    assert(keys.len() == 12);
}

/// A tool that is accepted has the name it is defined under, and holds each of its properties
/// as it is set, and nothing where it is not set.
pub proof fn accepted_tools_hold_their_properties(
    server: Seq<char>,
    tool: Seq<char>,
    props: Fields,
    answers: AnswersView,
)
    requires
        tool_properties(server, tool, props, answers) is Ok,
    ensures
        ({
            let read = tool_properties(server, tool, props, answers)->Ok_0;
            &&& read.name == tool
            &&& is_text_set(read.description, props, "description"@)
            &&& are_entries_set(read.propagate_request_meta, props, "propagate-request-meta"@, answers)
            &&& are_entries_set(read.propagate_result_meta, props, "propagate-result-meta"@, answers)
            &&& match read.target {
                ToolTargetView::Component { component, function, mapping, input_schema, output_schema } => {
                    &&& lookup(props, "component"@) == Some(JsonView::Str(component))
                    &&& lookup(props, "function"@) == Some(JsonView::Str(function))
                    &&& lookup(props, "channel"@) is None
                    &&& is_block_set(mapping.param_mapping, props, "param-mapping"@)
                    &&& is_block_set(mapping.param_encoding, props, "param-encoding"@)
                    &&& is_block_set(mapping.result_decoding, props, "result-decoding"@)
                    &&& mapping.result_mapping == lookup(props, "result-mapping"@)
                    &&& input_schema == lookup(props, "input-schema"@)
                    &&& output_schema == lookup(props, "output-schema"@)
                },
                ToolTargetView::Channel { channel, input_schema, output_schema } => {
                    &&& lookup(props, "channel"@) == Some(JsonView::Str(channel))
                    &&& lookup(props, "component"@) is None
                    &&& lookup(props, "function"@) is None
                    &&& lookup(props, "input-schema"@) == Some(input_schema)
                    &&& output_schema == lookup(props, "output-schema"@)
                },
            }
        }),
{
    let context = tool_context(server, tool);
    propagations_are_those_listed(
        context,
        "propagate-request-meta"@,
        PropagationDirection::Inbound,
        props,
        answers,
    );
    propagations_are_those_listed(
        context,
        "propagate-result-meta"@,
        PropagationDirection::Outbound,
        props,
        answers,
    );
}

/// Whether a tool is backed by a component's function: both are named and no channel is.
pub open spec fn is_component_backed(props: Fields) -> bool {
    &&& lookup(props, "component"@) matches Some(JsonView::Str(_))
    &&& lookup(props, "function"@) matches Some(JsonView::Str(_))
    &&& lookup(props, "channel"@) is None
}

/// Whether a tool is backed by a channel: one is named, with an input schema, and neither a
/// component nor a function nor any of the four mappings is.
pub open spec fn is_channel_backed(props: Fields) -> bool {
    &&& lookup(props, "channel"@) matches Some(JsonView::Str(_))
    &&& lookup(props, "component"@) is None
    &&& lookup(props, "function"@) is None
    &&& lookup(props, "param-mapping"@) is None
    &&& lookup(props, "param-encoding"@) is None
    &&& lookup(props, "result-decoding"@) is None
    &&& lookup(props, "result-mapping"@) is None
    &&& lookup(props, "input-schema"@) is Some
}

/// Whether a property is not set, or set to a block that the runtime has accepted.
pub open spec fn may_be_accepted_block(
    props: Fields,
    key: Seq<char>,
    given: Seq<(Seq<char>, Option<Seq<char>>)>,
    tool: Seq<char>,
) -> bool {
    lookup(props, key) is None || (lookup(props, key) matches Some(JsonView::Object(_)) && lookup(given, tool) == Some(
        None::<Seq<char>>,
    ))
}

/// Whether a header is written by the result mapping of a component-backed tool.
pub open spec fn is_mapped_header(props: Fields, header: Seq<char>) -> bool {
    is_component_backed(props) && (lookup(props, "result-mapping"@) matches Some(JsonView::Object(mapping)) && (lookup(
        mapping,
        "headers"@,
    ) matches Some(JsonView::Object(headers)) && lookup(headers, header) is Some))
}

/// Whether no entry of the result's `_meta` writes over a mapped header from a source other
/// than itself.
pub open spec fn writes_over_nothing(props: Fields, answers: AnswersView) -> bool {
    lookup(props, "propagate-result-meta"@) matches Some(JsonView::Array(items)) ==> forall|i: int, header: PropagatedHeaderView|
        0 <= i < items.len() && #[trigger] is_entry_of(header, items[i], answers) && is_mapped_header(
            props,
            header.target,
        ) ==> header.source == header.target
}

/// Whether the properties define a tool.
pub open spec fn define_a_tool(tool: Seq<char>, props: Fields, answers: AnswersView) -> bool {
    &&& is_component_backed(props) || is_channel_backed(props)
    &&& may_be_text(props, "description"@)
    &&& may_be_block(props, "param-mapping"@)
    &&& may_be_accepted_block(props, "param-encoding"@, answers.param_encodings, tool)
    &&& may_be_accepted_block(props, "result-decoding"@, answers.result_decodings, tool)
    &&& may_be_propagations(props, "propagate-request-meta"@, PropagationDirection::Inbound, answers)
    &&& may_be_propagations(props, "propagate-result-meta"@, PropagationDirection::Outbound, answers)
    &&& writes_over_nothing(props, answers)
    &&& forall|i: int| 0 <= i < props.len() ==> is_tool_key((#[trigger] props[i]).0)
}

/// A tool is accepted if and only if its properties define one: a component's function or a
/// channel backs it, each property is of its kind, the runtime has accepted what it has to,
/// the `_meta` sides of its entries are `_meta` keys, no entry writes over a mapped header,
/// and no property is unknown.
pub proof fn tools_are_accepted_where_properties_define_them(
    server: Seq<char>,
    tool: Seq<char>,
    props: Fields,
    answers: AnswersView,
)
    ensures
        tool_properties(server, tool, props, answers) is Ok <==> define_a_tool(tool, props, answers),
{
    let context = tool_context(server, tool);
    let inbound = propagation_property(
        context,
        "propagate-request-meta"@,
        PropagationDirection::Inbound,
        props,
        answers,
    );
    let outbound = propagation_property(
        context,
        "propagate-result-meta"@,
        PropagationDirection::Outbound,
        props,
        answers,
    );
    propagations_are_those_listed(
        context,
        "propagate-request-meta"@,
        PropagationDirection::Inbound,
        props,
        answers,
    );
    propagations_are_those_listed(
        context,
        "propagate-result-meta"@,
        PropagationDirection::Outbound,
        props,
        answers,
    );
    unknown_keys_are_found(props, tool_keys());
    assert forall|i: int| 0 <= i < props.len() implies (tool_keys().contains((#[trigger] props[i]).0) <==> is_tool_key(
        props[i].0,
    )) by {
        tool_keys_are_those(props[i].0);
    }
    assert(only_known_keys(props, tool_keys()) <==> forall|i: int|
        0 <= i < props.len() ==> is_tool_key((#[trigger] props[i]).0));
    let read = target_properties(server, tool, props, answers);
    if read is Ok && outbound is Ok {
        let headers = mapped_headers(read->Ok_0);
        let entries = outbound->Ok_0;
        overrides_are_found(headers, entries);
        assert forall|header: Seq<char>| is_mapped_header(props, header) <==> #[trigger] lookup(
            headers,
            header,
        ) is Some by {}
        if overrides_nothing(headers, entries) {
            if let Some(JsonView::Array(items)) = lookup(props, "propagate-result-meta"@) {
                assert forall|i: int, header: PropagatedHeaderView|
                    0 <= i < items.len() && #[trigger] is_entry_of(header, items[i], answers) && is_mapped_header(
                        props,
                        header.target,
                    ) implies header.source == header.target by {
                    assert(is_entry_of(entries[i], items[i], answers));
                    assert(!overrides(headers, entries[i]));
                }
            }
        }
        if writes_over_nothing(props, answers) {
            assert forall|i: int| 0 <= i < entries.len() implies !overrides(headers, #[trigger] entries[i]) by {
                let items = lookup(props, "propagate-result-meta"@)->0->Array_0;
                assert(is_entry_of(entries[i], items[i], answers));
            }
        }
    }
}

} // verus!
