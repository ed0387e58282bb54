//! What a tool reports of itself and answers, field by field.

use vstd::prelude::*;

use crate::adapter::laws::{
    mappings_hold_prefixed_entries, property, pruning_keeps_other_members, pruning_removes_named_properties,
};
use crate::adapter::{
    adapted, adapted_outcome, call_outcome, configured_mapping, flag, keys_of, names_item, pruned, pruned_text,
    reported_annotations, structures_any, structures_result, under_prefix, values_of, without_items, ConfigView,
    FunctionMetadataView, InvokeErrorView, ResponseView, ToolMetadataView, ToolResponseView,
};
use crate::json::{
    parsed, with_member, without_members, written, written_member_is_found, Fields, JsonView,
};
use crate::pairs::{
    collected, collected_keys_are_distinct, distinct_pairs_are_found, found_pairs_are_the_first, last_lookup, lookup,
};
use crate::text::precedes;

verus! {

/// The default version of the spec is before the one that admits any JSON value.
proof fn default_version_is_before()
    ensures
        precedes("2025-06-18"@, "2026-07-28"@),
{
    reveal_strlit("2025-06-18");
    reveal_strlit("2026-07-28");
    reveal_with_fuel(precedes, 5);
    let a = "2025-06-18"@;
    let b = "2026-07-28"@;
    assert(a.len() == 10 && b.len() == 10);
    assert(a[0] == b[0] && a[1] == b[1] && a[2] == b[2] && a[3] == '5' && b[3] == '6');
    assert(a.drop_first()[0] == a[1] && b.drop_first()[0] == b[1]);
    assert(a.drop_first().drop_first()[0] == a[2] && b.drop_first().drop_first()[0] == b[2]);
    assert(a.drop_first().drop_first().drop_first()[0] == a[3]);
    assert(b.drop_first().drop_first().drop_first()[0] == b[3]);
}

/// Any JSON value is structured content if and only if config names a version of the spec
/// that is not before 2026-07-28.
pub proof fn any_json_is_structured_from_a_version_on(config: ConfigView)
    ensures
        structures_any(config) <==> (lookup(config.values, "spec-version"@) matches Some(version) && !precedes(
            version,
            "2026-07-28"@,
        )),
{
    default_version_is_before();
}

/// Whether a text is a JSON Schema whose root is typed as an object.
pub open spec fn is_object_text(schema: Seq<char>) -> bool {
    parsed(schema) matches Ok(JsonView::Object(fields)) && lookup(fields, "type"@) == Some(JsonView::Str("object"@))
}

/// A result is structured content if and only if the function's output schema is known, and
/// either any JSON value is structured content or that schema is one of an object.
pub proof fn results_are_structured_by_the_functions_schema(
    config: ConfigView,
    function: Result<FunctionMetadataView, Seq<char>>,
)
    ensures
        structures_result(config, function) <==> (function matches Ok(f) && (structures_any(config) || is_object_text(
            f.output_schema,
        ))),
{
}

/// A tool has the name and the description that config sets, or else those of the function,
/// and the title that config sets. It has no metadata.
pub proof fn config_overrides_the_function(config: ConfigView, function: FunctionMetadataView)
    ensures
        ({
            let tool = adapted(config, function);
            &&& lookup(config.values, "name"@) matches Some(name) ==> tool.name == name
            &&& lookup(config.values, "name"@) is None ==> tool.name == function.name
            &&& lookup(config.values, "description"@) is Some ==> tool.description == lookup(
                config.values,
                "description"@,
            )
            &&& lookup(config.values, "description"@) is None ==> tool.description == function.description
            &&& tool.title == lookup(config.values, "title"@)
            &&& tool.annotations == reported_annotations(config)
            &&& tool.meta.len() == 0
        }),
        adapted_outcome(config, Ok(function)) == Ok::<ToolMetadataView, Seq<char>>(adapted(config, function)),
{
}

/// A function whose metadata cannot be had gives a tool without them, with the same words.
pub proof fn failures_of_the_function_are_passed_on(config: ConfigView, e: Seq<char>)
    ensures
        adapted_outcome(config, Err(e)) == Err::<ToolMetadataView, Seq<char>>(e),
        !structures_result(config, Err(e)),
{
}

/// Whether a hint is what config sets a key to: `true`, `false`, or neither of the two.
pub open spec fn is_flag_set(hint: Option<bool>, config: ConfigView, key: Seq<char>) -> bool {
    match hint {
        Some(b) => lookup(config.values, key) == Some(if b {
            "true"@
        } else {
            "false"@
        }),
        None => lookup(config.values, key) != Some("true"@) && lookup(config.values, key) != Some("false"@),
    }
}

/// A tool has annotations if and only if config sets its title or one of the hints, and then
/// each of them as config sets it.
pub proof fn annotations_are_those_that_config_sets(config: ConfigView)
    ensures
        match reported_annotations(config) {
            Some(a) => {
                &&& a.title == lookup(config.values, "title"@)
                &&& is_flag_set(a.read_only_hint, config, "read-only-hint"@)
                &&& is_flag_set(a.destructive_hint, config, "destructive-hint"@)
                &&& is_flag_set(a.idempotent_hint, config, "idempotent-hint"@)
                &&& is_flag_set(a.open_world_hint, config, "open-world-hint"@)
                &&& a.title is Some || a.read_only_hint is Some || a.destructive_hint is Some || a.idempotent_hint is Some
                    || a.open_world_hint is Some
            },
            None => {
                &&& lookup(config.values, "title"@) is None
                &&& is_flag_set(None, config, "read-only-hint"@)
                &&& is_flag_set(None, config, "destructive-hint"@)
                &&& is_flag_set(None, config, "idempotent-hint"@)
                &&& is_flag_set(None, config, "open-world-hint"@)
            },
        },
{
    reveal_strlit("true");
    reveal_strlit("false");
    assert("true"@.len() != "false"@.len());
}

/// Whether config has a param read from `_meta`: whether it lists the param's name under
/// `request-meta.`.
pub open spec fn is_supplied(config: ConfigView, param: Seq<char>) -> bool {
    last_lookup(config.listing, "request-meta."@ + param) is Some
}

/// Whether config has a result field go into `_meta`: whether it is the last value of a key
/// under `response-meta.`.
pub open spec fn is_extracted(config: ConfigView, field: Seq<char>) -> bool {
    exists|key: Seq<char>| #[trigger] last_lookup(config.listing, "response-meta."@ + key) == Some(field)
}

/// Which params config has read from `_meta`.
pub open spec fn supplied(config: ConfigView) -> spec_fn(Seq<char>) -> bool {
    |param: Seq<char>| is_supplied(config, param)
}

/// Which result fields config has go into `_meta`.
pub open spec fn extracted(config: ConfigView) -> spec_fn(Seq<char>) -> bool {
    |field: Seq<char>| is_extracted(config, field)
}

/// The names under a prefix are those with which config lists a key.
proof fn prefixed_keys_are_listed(config: ConfigView, prefix: Seq<char>, name: Seq<char>)
    ensures
        keys_of(collected(under_prefix(config.listing, prefix))).contains(name) <==> last_lookup(
            config.listing,
            prefix + name,
        ) is Some,
{
    let entries = collected(under_prefix(config.listing, prefix));
    mappings_hold_prefixed_entries(config, prefix, name);
    found_pairs_are_the_first(entries, name);
    let keys = keys_of(entries);
    if keys.contains(name) {
        let i = choose|i: int| 0 <= i < keys.len() && keys[i] == name;
        assert(entries[i].0 == name);
    }
    if lookup(entries, name) is Some {
        let i = choose|i: int| 0 <= i < entries.len() && (#[trigger] entries[i]).0 == name;
        assert(keys[i] == name);
    }
}

/// The values under a prefix are those that config lists last under some key.
proof fn prefixed_values_are_listed(config: ConfigView, prefix: Seq<char>, value: Seq<char>)
    ensures
        values_of(collected(under_prefix(config.listing, prefix))).contains(value) <==> exists|key: Seq<char>|
            #[trigger] last_lookup(config.listing, prefix + key) == Some(value),
{
    let entries = collected(under_prefix(config.listing, prefix));
    let values = values_of(entries);
    if values.contains(value) {
        let i = choose|i: int| 0 <= i < values.len() && values[i] == value;
        collected_keys_are_distinct(under_prefix(config.listing, prefix));
        distinct_pairs_are_found(entries, i);
        mappings_hold_prefixed_entries(config, prefix, entries[i].0);
        assert(last_lookup(config.listing, prefix + entries[i].0) == Some(value));
    }
    if exists|key: Seq<char>| #[trigger] last_lookup(config.listing, prefix + key) == Some(value) {
        let key = choose|key: Seq<char>| #[trigger] last_lookup(config.listing, prefix + key) == Some(value);
        mappings_hold_prefixed_entries(config, prefix, key);
        found_pairs_are_the_first(entries, key);
        let i = choose|i: int| 0 <= i < entries.len() && (#[trigger] entries[i]).0 == key && entries[i].1 == value;
        assert(values[i] == value);
    }
}

/// Which items of a list of names stay where some names are left out.
pub open spec fn stays(left_out: spec_fn(Seq<char>) -> bool) -> spec_fn(JsonView) -> bool {
    |item: JsonView| !(item matches JsonView::Str(name) && left_out(name))
}

/// What is left of items ends with the last of them, unless that is named.
proof fn kept_items_from_the_end(items: Seq<JsonView>, names: Seq<Seq<char>>)
    requires
        items.len() > 0,
    ensures
        without_items(items, names) == (if names_item(names, items.last()) {
            without_items(items.drop_last(), names)
        } else {
            without_items(items.drop_last(), names).push(items.last())
        }),
    decreases items.len(),
{
    let rest = items.drop_first();
    let front = items.drop_last();
    if items.len() == 1 {
        assert(rest =~= Seq::empty());
        assert(front =~= Seq::empty());
        assert(without_items(rest, names) =~= Seq::empty());
        assert(without_items(front, names) =~= Seq::empty());
        assert(without_items(items, names) =~= if names_item(names, items.last()) {
            without_items(front, names)
        } else {
            without_items(front, names).push(items.last())
        });
    } else {
        kept_items_from_the_end(rest, names);
        assert(rest.last() == items.last());
        assert(rest.drop_last() =~= front.drop_first());
        assert(front[0] == items[0]);
        assert(without_items(items, names) =~= if names_item(names, items.last()) {
            without_items(front, names)
        } else {
            without_items(front, names).push(items.last())
        });
    }
}

/// What is left of items are those that stay, in their order.
proof fn kept_items_are_those_that_stay(
    items: Seq<JsonView>,
    names: Seq<Seq<char>>,
    left_out: spec_fn(Seq<char>) -> bool,
)
    requires
        forall|name: Seq<char>| #[trigger] names.contains(name) <==> left_out(name),
    ensures
        without_items(items, names) == items.filter(stays(left_out)),
    decreases items.len(),
{
    reveal(Seq::filter);
    if items.len() > 0 {
        kept_items_are_those_that_stay(items.drop_last(), names, left_out);
        kept_items_from_the_end(items, names);
        if let JsonView::Str(name) = items.last() {
            assert(names.contains(name) <==> left_out(name));
        }
        assert(names_item(names, items.last()) == !stays(left_out)(items.last()));
    }
}

/// What pruning does to what a schema describes and requires.
proof fn pruned_members(schema: Fields, names: Seq<Seq<char>>)
    ensures
        match lookup(schema, "properties"@) {
            Some(JsonView::Object(_)) => lookup(pruned(schema, names), "properties"@) matches Some(JsonView::Object(_)),
            other => lookup(pruned(schema, names), "properties"@) == other,
        },
        match lookup(schema, "required"@) {
            Some(JsonView::Array(items)) => lookup(pruned(schema, names), "required"@) == Some(
                JsonView::Array(without_items(items, names)),
            ),
            other => lookup(pruned(schema, names), "required"@) == other,
        },
{
    reveal_strlit("properties");
    reveal_strlit("required");
    assert("properties"@.len() != "required"@.len());
    let described = match lookup(schema, "properties"@) {
        Some(JsonView::Object(properties)) => with_member(
            schema,
            "properties"@,
            JsonView::Object(without_members(properties, names)),
        ),
        _ => schema,
    };
    if let Some(JsonView::Object(properties)) = lookup(schema, "properties"@) {
        let kept = JsonView::Object(without_members(properties, names));
        written_member_is_found(schema, "properties"@, kept, "properties"@);
        written_member_is_found(schema, "properties"@, kept, "required"@);
    }
    if let Some(JsonView::Array(required)) = lookup(described, "required"@) {
        let kept = JsonView::Array(without_items(required, names));
        written_member_is_found(described, "required"@, kept, "properties"@);
        written_member_is_found(described, "required"@, kept, "required"@);
    }
}

/// Whether a schema is another without some of its properties: it neither describes nor
/// requires them, and is the same in everything else.
pub open spec fn is_rest_of(rest: Fields, schema: Fields, left_out: spec_fn(Seq<char>) -> bool) -> bool {
    &&& forall|name: Seq<char>|
        #[trigger] property(rest, name) == (if left_out(name) {
            None
        } else {
            property(schema, name)
        })
    &&& match lookup(schema, "properties"@) {
        Some(JsonView::Object(_)) => lookup(rest, "properties"@) matches Some(JsonView::Object(_)),
        other => lookup(rest, "properties"@) == other,
    }
    &&& match lookup(schema, "required"@) {
        Some(JsonView::Array(items)) => lookup(rest, "required"@) == Some(
            JsonView::Array(items.filter(stays(left_out))),
        ),
        other => lookup(rest, "required"@) == other,
    }
    &&& forall|key: Seq<char>|
        key != "properties"@ && key != "required"@ ==> #[trigger] lookup(rest, key) == lookup(schema, key)
}

/// Whether a text is that of a schema without some of its properties: the text itself, where
/// none is to be left out or the schema is no object, and else that of the rest.
pub open spec fn is_rest_of_text(text: Seq<char>, schema: Seq<char>, left_out: spec_fn(Seq<char>) -> bool) -> bool {
    match parsed(schema) {
        Ok(JsonView::Object(base)) => if exists|name: Seq<char>| #[trigger] left_out(name) {
            exists|rest: Fields| text == written(JsonView::Object(rest)) && #[trigger] is_rest_of(rest, base, left_out)
        } else {
            text == schema
        },
        _ => text == schema,
    }
}

/// Pruning leaves out just the names it is given.
proof fn pruning_leaves_out_the_names(schema: Seq<char>, names: Seq<Seq<char>>, left_out: spec_fn(Seq<char>) -> bool)
    requires
        forall|name: Seq<char>| #[trigger] names.contains(name) <==> left_out(name),
    ensures
        is_rest_of_text(pruned_text(schema, parsed(schema), names), schema, left_out),
{
    if let Ok(JsonView::Object(base)) = parsed(schema) {
        if names.len() > 0 {
            assert(names.contains(names[0]));
            assert(left_out(names[0]));
            let rest = pruned(base, names);
            assert forall|name: Seq<char>|
                #[trigger] property(rest, name) == (if left_out(name) {
                    None
                } else {
                    property(base, name)
                }) by {
                pruning_removes_named_properties(base, names, name);
                assert(names.contains(name) <==> left_out(name));
            }
            pruned_members(base, names);
            if let Some(JsonView::Array(items)) = lookup(base, "required"@) {
                kept_items_are_those_that_stay(items, names, left_out);
            }
            assert forall|key: Seq<char>| key != "properties"@ && key != "required"@ implies #[trigger] lookup(
                rest,
                key,
            ) == lookup(base, key) by {
                pruning_keeps_other_members(base, names, key);
            }
            assert(is_rest_of(rest, base, left_out));
        } else {
            assert forall|name: Seq<char>| !(#[trigger] left_out(name)) by {
                assert(!names.contains(name));
            }
        }
    }
}

/// The input schema that a tool reports is that of the function, without the params that
/// config has read from `_meta`.
pub proof fn input_schemas_leave_out_supplied_params(config: ConfigView, function: FunctionMetadataView)
    ensures
        is_rest_of_text(
            adapted(config, function).input_schema,
            function.input_schema,
            supplied(config),
        ),
{
    let names = keys_of(configured_mapping(config).request_headers);
    let left_out = supplied(config);
    assert forall|name: Seq<char>| #[trigger] names.contains(name) <==> left_out(name) by {
        prefixed_keys_are_listed(config, "request-meta."@, name);
    }
    pruning_leaves_out_the_names(function.input_schema, names, left_out);
}

/// The output schema that a tool may report is that of the function, without the fields that
/// config has go into `_meta`. The tool reports it if and only if any JSON value is structured
/// content or it is the schema of an object.
pub proof fn output_schemas_leave_out_extracted_fields(config: ConfigView, function: FunctionMetadataView)
    ensures
        exists|schema: Seq<char>| #[trigger]
            is_rest_of_text(schema, function.output_schema, extracted(config)) && adapted(
                config,
                function,
            ).output_schema == (if structures_any(config) || is_object_text(schema) {
                Some(schema)
            } else {
                None
            }),
{
    let names = values_of(configured_mapping(config).response_headers);
    let left_out = extracted(config);
    assert forall|name: Seq<char>| #[trigger] names.contains(name) <==> left_out(name) by {
        prefixed_values_are_listed(config, "response-meta."@, name);
    }
    pruning_leaves_out_the_names(function.output_schema, names, left_out);
    let schema = pruned_text(function.output_schema, parsed(function.output_schema), names);
    assert(is_rest_of_text(schema, function.output_schema, extracted(config)));
}

/// The mapping of a call holds what config lists last under the two prefixes, each name once.
pub proof fn mappings_hold_what_config_lists(config: ConfigView, name: Seq<char>)
    ensures
        lookup(configured_mapping(config).request_headers, name) == last_lookup(
            config.listing,
            "request-meta."@ + name,
        ),
        lookup(configured_mapping(config).response_headers, name) == last_lookup(
            config.listing,
            "response-meta."@ + name,
        ),
{
    mappings_hold_prefixed_entries(config, "request-meta."@, name);
    mappings_hold_prefixed_entries(config, "response-meta."@, name);
}

/// Whether a response has one block of content, which is this text and nothing more.
pub open spec fn answers_with(response: ToolResponseView, text: Seq<char>) -> bool {
    &&& response.content.len() == 1
    &&& response.content[0].text == text
    &&& response.content[0].annotations is None
    &&& response.content[0].meta.len() == 0
}

/// A response of the function is no error: its body is the text of the answer, and its
/// structured content too where that is asked for, and its headers are the metadata.
pub proof fn responses_are_answered_with_their_body(structured: bool, response: ResponseView)
    ensures
        call_outcome(structured, Ok(response)) matches Ok(answer) && {
            &&& !answer.is_error
            &&& answers_with(answer, response.body)
            &&& answer.structured_content == (if structured {
                Some(response.body)
            } else {
                None
            })
            &&& answer.meta == response.headers
        },
{
}

/// A function that failed, or returned no response, is answered with an error that has just
/// its words; one that was not reached gives no answer but a failure with its words and the
/// code -32000.
pub proof fn failures_are_answered_with_their_words(structured: bool, failure: InvokeErrorView)
    ensures
        match (failure, call_outcome(structured, Err(failure))) {
            (InvokeErrorView::Other(e), Err(error)) => error.code == -32000 && error.message == e && error.data is None,
            (InvokeErrorView::FailedCall(e), Ok(answer)) => answer.is_error && answers_with(answer, e)
                && answer.structured_content is None && answer.meta.len() == 0,
            (InvokeErrorView::InvalidResponse(e), Ok(answer)) => answer.is_error && answers_with(answer, e)
                && answer.structured_content is None && answer.meta.len() == 0,
            _ => false,
        },
{
}

/// A config value is a truth value if and only if it is `true` or `false`, and then that one.
pub proof fn flags_are_true_or_false(config: ConfigView, key: Seq<char>)
    ensures
        is_flag_set(flag(config, key), config, key),
{
    reveal_strlit("true");
    reveal_strlit("false");
    assert("true"@.len() != "false"@.len());
}

} // verus!
