//! What holds of every schema that a tool reports.

use vstd::prelude::*;

use crate::adapter::{
    adapted, admits_any_json, call_outcome, describes_object, left_out, names_item, pruned, pruned_reads_alike,
    pruned_text, structures_any, structures_result, under_prefix, without_items, ConfigView, EntriesView,
    FunctionMetadataView, InvokeErrorView, ResponseView, ANY_STRUCTURED_CONTENT,
};
use crate::json::{
    alike, alike_fields, alike_members_are_found, left_out_members_are_not_found, parsed, with_member, without_members,
    written, written_member_is_found, Fields, JsonView, READING_DEPTH,
};
use crate::pairs::{collected, collected_pairs_hold_last_values, last_lookup, last_lookup_from_front, lookup};
use crate::text::{begins_with, precedes, precedes_is_transitive};

pub mod reports;
pub mod views;

verus! {

/// The keys that pruning touches are two.
proof fn pruned_keys_differ()
    ensures
        "properties"@ != "required"@,
{
    reveal_strlit("properties");
    reveal_strlit("required");
    assert("properties"@.len() != "required"@.len());
}

/// Pruning leaves every member but `properties` and `required` as it is.
pub proof fn pruning_keeps_other_members(schema: Fields, names: Seq<Seq<char>>, key: Seq<char>)
    requires
        key != "properties"@,
        key != "required"@,
    ensures
        lookup(pruned(schema, names), key) == lookup(schema, key),
{
    pruned_keys_differ();
    if let Some(JsonView::Object(properties)) = lookup(schema, "properties"@) {
        let kept = JsonView::Object(without_members(properties, names));
        written_member_is_found(schema, "properties"@, kept, key);
        written_member_is_found(schema, "properties"@, kept, "required"@);
        let described = with_member(schema, "properties"@, kept);
        if let Some(JsonView::Array(required)) = lookup(described, "required"@) {
            written_member_is_found(described, "required"@, JsonView::Array(without_items(required, names)), key);
        }
    } else if let Some(JsonView::Array(required)) = lookup(schema, "required"@) {
        written_member_is_found(schema, "required"@, JsonView::Array(without_items(required, names)), key);
    }
}

/// The properties of a pruned schema: those of the schema, without the named ones.
pub open spec fn property(schema: Fields, name: Seq<char>) -> Option<JsonView> {
    match lookup(schema, "properties"@) {
        Some(JsonView::Object(properties)) => lookup(properties, name),
        _ => None,
    }
}

/// A pruned schema describes none of the named properties, and the others as the schema
/// does.
pub proof fn pruning_removes_named_properties(schema: Fields, names: Seq<Seq<char>>, name: Seq<char>)
    ensures
        property(pruned(schema, names), name) == (if names.contains(name) {
            None
        } else {
            property(schema, name)
        }),
{
    pruned_keys_differ();
    let described = match lookup(schema, "properties"@) {
        Some(JsonView::Object(properties)) => with_member(
            schema,
            "properties"@,
            JsonView::Object(without_members(properties, names)),
        ),
        _ => schema,
    };
    if let Some(JsonView::Object(properties)) = lookup(schema, "properties"@) {
        let kept = JsonView::Object(without_members(properties, names));
        written_member_is_found(schema, "properties"@, kept, "properties"@);
        left_out_members_are_not_found(properties, names, name);
    }
    if let Some(JsonView::Array(required)) = lookup(described, "required"@) {
        let kept = JsonView::Array(without_items(required, names));
        written_member_is_found(described, "required"@, kept, "properties"@);
    }
}

/// What is left of items is none of the names, and is among the items; an item that is
/// none of the names is left.
proof fn kept_items(items: Seq<JsonView>, names: Seq<Seq<char>>)
    ensures
        forall|i: int|
            0 <= i < without_items(items, names).len() ==> !names_item(
                names,
                #[trigger] without_items(items, names)[i],
            ) && items.contains(without_items(items, names)[i]),
        forall|j: int|
            0 <= j < items.len() && !names_item(names, #[trigger] items[j]) ==> without_items(items, names).contains(
                items[j],
            ),
    decreases items.len(),
{
    if items.len() > 0 {
        let rest = items.drop_first();
        let tail = without_items(rest, names);
        let kept = without_items(items, names);
        kept_items(rest, names);
        assert forall|i: int| 0 <= i < kept.len() implies !names_item(names, #[trigger] kept[i]) && items.contains(
            kept[i],
        ) by {
            if names_item(names, items[0]) {
                assert(kept[i] == tail[i]);
                let j = choose|j: int| 0 <= j < rest.len() && rest[j] == tail[i];
                assert(items[j + 1] == tail[i]);
            } else if i == 0 {
                assert(kept[0] == items[0]);
            } else {
                assert(kept[i] == tail[i - 1]);
                let j = choose|j: int| 0 <= j < rest.len() && rest[j] == tail[i - 1];
                assert(items[j + 1] == tail[i - 1]);
            }
        }
        assert forall|j: int| 0 <= j < items.len() && !names_item(names, #[trigger] items[j]) implies kept.contains(
            items[j],
        ) by {
            if j == 0 {
                assert(kept[0] == items[0]);
            } else {
                assert(rest[j - 1] == items[j]);
                let i = choose|i: int| 0 <= i < tail.len() && tail[i] == items[j];
                if names_item(names, items[0]) {
                    assert(kept[i] == items[j]);
                } else {
                    assert(kept[i + 1] == items[j]);
                }
            }
        }
    }
}

/// What a schema requires, where that is a list.
pub open spec fn required_items(schema: Fields) -> Option<Seq<JsonView>> {
    match lookup(schema, "required"@) {
        Some(JsonView::Array(required)) => Some(required),
        _ => None,
    }
}

/// A pruned schema requires none of the named properties, and otherwise what the schema
/// does.
pub proof fn pruning_removes_named_requirements(schema: Fields, names: Seq<Seq<char>>, item: JsonView)
    ensures
        match (required_items(schema), required_items(pruned(schema, names))) {
            (Some(before), Some(after)) => after.contains(item) <==> before.contains(item) && !names_item(names, item),
            (None, None) => true,
            _ => false,
        },
{
    pruned_keys_differ();
    let described = match lookup(schema, "properties"@) {
        Some(JsonView::Object(properties)) => with_member(
            schema,
            "properties"@,
            JsonView::Object(without_members(properties, names)),
        ),
        _ => schema,
    };
    if let Some(JsonView::Object(properties)) = lookup(schema, "properties"@) {
        let kept = JsonView::Object(without_members(properties, names));
        written_member_is_found(schema, "properties"@, kept, "required"@);
    }
    if let Some(JsonView::Array(required)) = lookup(described, "required"@) {
        let kept = without_items(required, names);
        written_member_is_found(described, "required"@, JsonView::Array(kept), "required"@);
        kept_items(required, names);
        if required.contains(item) && !names_item(names, item) {
            let j = choose|j: int| 0 <= j < required.len() && required[j] == item;
            assert(kept.contains(required[j]));
        }
    }
}

/// Pruning neither makes nor unmakes the schema of an object.
pub proof fn pruning_keeps_the_type(schema: Fields, names: Seq<Seq<char>>)
    ensures
        describes_object(Ok(JsonView::Object(pruned(schema, names)))) == describes_object(Ok(JsonView::Object(schema))),
{
    reveal_strlit("type");
    reveal_strlit("properties");
    reveal_strlit("required");
    assert("type"@.len() != "properties"@.len());
    assert("type"@.len() != "required"@.len());
    pruning_keeps_other_members(schema, names, "type"@);
}

/// Nor does writing the pruned schema and reading it again, where it is read as that
/// schema.
pub proof fn pruned_text_keeps_the_type(schema: Seq<char>, names: Seq<Seq<char>>)
    requires
        pruned_reads_alike(parsed(schema), names),
    ensures
        describes_object(parsed(pruned_text(schema, parsed(schema), names))) == describes_object(parsed(schema)),
{
    if let Ok(JsonView::Object(base)) = parsed(schema) {
        if names.len() > 0 {
            let kept = pruned(base, names);
            let read = parsed(written(JsonView::Object(kept)))->Ok_0;
            let below = (READING_DEPTH - 1) as nat;
            pruning_keeps_the_type(base, names);
            assert(alike(JsonView::Object(kept), read, READING_DEPTH as nat));
            assert(alike_fields(kept, read->Object_0, below));
            alike_members_are_found(kept, read->Object_0, below, "type"@);
        }
    }
}

/// Where the pruned schema is read as it was written, a call that is no error has
/// structured content if and only if the metadata report an output schema, and that content
/// is the text of the result.
pub proof fn structured_content_goes_with_a_reported_schema(
    config: ConfigView,
    function: FunctionMetadataView,
    invoked: Result<ResponseView, InvokeErrorView>,
)
    requires
        structures_any(config) || pruned_reads_alike(parsed(function.output_schema), left_out(config)),
    ensures
        match call_outcome(structures_result(config, Ok(function)), invoked) {
            Ok(r) => !r.is_error ==> {
                &&& r.structured_content is Some <==> adapted(config, function).output_schema is Some
                &&& r.content.len() == 1
                &&& r.structured_content matches Some(s) ==> s == r.content[0].text
            },
            Err(_) => true,
        },
{
    if !structures_any(config) {
        pruned_text_keeps_the_type(function.output_schema, left_out(config));
    }
}

/// A spec version from one on which admits any JSON value as structured content admits
/// it too.
pub proof fn later_versions_admit_any_json(version: Seq<char>, later: Seq<char>)
    requires
        admits_any_json(version),
        version == later || precedes(version, later),
    ensures
        admits_any_json(later),
{
    if precedes(later, ANY_STRUCTURED_CONTENT@) && precedes(version, later) {
        precedes_is_transitive(version, later, ANY_STRUCTURED_CONTENT@);
    }
}

/// A text is what follows a prefix if and only if it makes up the whole with it.
proof fn stripped_texts_follow(key: Seq<char>, prefix: Seq<char>, rest: Seq<char>)
    ensures
        (begins_with(key, prefix) && key.skip(prefix.len() as int) == rest) <==> key == prefix + rest,
{
    if begins_with(key, prefix) {
        assert(key =~= key.take(prefix.len() as int) + key.skip(prefix.len() as int));
    }
    if key == prefix + rest {
        assert(key.take(prefix.len() as int) =~= prefix);
        assert(key.skip(prefix.len() as int) =~= rest);
    }
}

/// The last entry under a prefix is the last entry with the whole key.
proof fn prefixed_entries_are_last(entries: EntriesView, prefix: Seq<char>, dest: Seq<char>)
    ensures
        last_lookup(under_prefix(entries, prefix), dest) == last_lookup(entries, prefix + dest),
    decreases entries.len(),
{
    if entries.len() > 0 {
        let rest = entries.drop_first();
        prefixed_entries_are_last(rest, prefix, dest);
        last_lookup_from_front(entries, prefix + dest);
        stripped_texts_follow(entries[0].0, prefix, dest);
        if begins_with(entries[0].0, prefix) {
            let under = under_prefix(entries, prefix);
            assert(under.drop_first() =~= under_prefix(rest, prefix));
            last_lookup_from_front(under, dest);
        }
    }
}

/// A mapping holds, for each name, the last value that config lists under the prefix and
/// that name, and nothing else.
pub proof fn mappings_hold_prefixed_entries(config: ConfigView, prefix: Seq<char>, dest: Seq<char>)
    ensures
        lookup(collected(under_prefix(config.listing, prefix)), dest) == last_lookup(config.listing, prefix + dest),
{
    collected_pairs_hold_last_values(under_prefix(config.listing, prefix), dest);
    prefixed_entries_are_last(config.listing, prefix, dest);
}

} // verus!
