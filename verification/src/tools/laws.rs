//! What holds of every tool and result that is read.

use vstd::prelude::*;

use crate::json::{written_member_is_found, with_member, Fields, JsonView};
use crate::mcp::{ContentView, ToolView};
use crate::pairs::{last_lookup, last_lookup_from_front, lookup};
use crate::tools::rules::{
    annotations_of, audio_with_meta_in, content_of, contents_of, entries_value, in_unit_range, is_audio_with_meta,
    meta_entries_over, meta_entry, meta_of, result_of, tool_of,
};

pub mod blocks;
pub mod refusals;
pub mod wholes;

verus! {

/// A tool has the name it is given, whatever its metadata say.
pub proof fn tools_have_the_given_name(value: JsonView, name: Seq<char>, other: Seq<char>)
    ensures
        match (tool_of(value, name), tool_of(value, other)) {
            (Ok(tool), Ok(twin)) => tool.name == name && twin == (ToolView { name: other, ..tool }),
            (Err(e), Err(f)) => e == f,
            _ => false,
        },
{
}

/// The input schema of a tool describes an object.
pub proof fn input_schemas_describe_objects(value: JsonView, name: Seq<char>)
    requires
        tool_of(value, name) is Ok,
    ensures
        lookup(tool_of(value, name)->Ok_0.input_schema, "type"@) == Some(JsonView::Str("object"@)),
{
}

/// A priority that is accepted is between 0 and 1.
pub proof fn priorities_are_in_range(value: JsonView)
    requires
        annotations_of(value) is Ok,
    ensures
        annotations_of(value)->Ok_0.priority matches Some(n) ==> in_unit_range(n),
{
}

/// A result is an error if and only if it says so, and where it has structured content,
/// the text of that is its content.
pub proof fn results_keep_their_error_flag(value: JsonView)
    requires
        result_of(value) is Ok,
    ensures
        ({
            let result = result_of(value)->Ok_0;
            &&& value is Object
            &&& lookup(value->Object_0, "is-error"@) == Some(JsonView::Bool(result.is_error->0))
            &&& result.is_error is Some
            &&& result.structured_content matches Some(v) ==> result.content == seq![
                crate::mcp::text_content(crate::json::written(v)),
            ]
        }),
{
}

/// Content is accepted if and only if every block is, and then block by block.
pub proof fn content_is_read_block_by_block(items: Seq<JsonView>)
    ensures
        contents_of(items) is Ok <==> forall|i: int| 0 <= i < items.len() ==> content_of(#[trigger] items[i]) is Ok,
        contents_of(items) matches Ok(blocks) ==> blocks.len() == items.len() && forall|i: int|
            0 <= i < items.len() ==> content_of(#[trigger] items[i]) == Ok::<ContentView, Seq<char>>(blocks[i]),
    decreases items.len(),
{
    if items.len() > 0 {
        let rest = items.drop_first();
        content_is_read_block_by_block(rest);
        if contents_of(items) is Ok {
            let blocks = contents_of(items)->Ok_0;
            let tail = contents_of(rest)->Ok_0;
            assert forall|i: int| 0 <= i < items.len() implies content_of(#[trigger] items[i]) == Ok::<
                ContentView,
                Seq<char>,
            >(blocks[i]) by {
                if i > 0 {
                    assert(rest[i - 1] == items[i]);
                    assert(blocks[i] == tail[i - 1]);
                }
            }
        }
        if forall|i: int| 0 <= i < items.len() ==> content_of(#[trigger] items[i]) is Ok {
            assert(content_of(items[0]) is Ok);
            assert forall|i: int| 0 <= i < rest.len() implies content_of(#[trigger] rest[i]) is Ok by {
                assert(rest[i] == items[i + 1]);
            }
        }
    }
}

/// Of content that is accepted, no metadata of audio are dropped if and only if no block is
/// audio with metadata.
pub proof fn dropped_audio_meta_are_counted(items: Seq<JsonView>)
    requires
        contents_of(items) is Ok,
    ensures
        audio_with_meta_in(items) == 0 <==> forall|i: int|
            0 <= i < items.len() ==> !is_audio_with_meta(#[trigger] items[i]),
    decreases items.len(),
{
    if items.len() > 0 {
        let rest = items.drop_first();
        dropped_audio_meta_are_counted(rest);
        if audio_with_meta_in(items) == 0 {
            assert forall|i: int| 0 <= i < items.len() implies !is_audio_with_meta(#[trigger] items[i]) by {
                if i > 0 {
                    assert(rest[i - 1] == items[i]);
                }
            }
        }
        if forall|i: int| 0 <= i < items.len() ==> !is_audio_with_meta(#[trigger] items[i]) {
            assert(!is_audio_with_meta(items[0]));
            assert forall|i: int| 0 <= i < rest.len() implies !is_audio_with_meta(#[trigger] rest[i]) by {
                assert(rest[i] == items[i + 1]);
            }
        }
    }
}

/// Entries that are written, and read over what is there, are found by their last value.
proof fn entries_are_read_over(
    there: Fields,
    entries: Seq<(Seq<char>, Seq<char>)>,
    key: Seq<char>,
)
    ensures
        match meta_entries_over(there, entries_value(entries)->Array_0) {
            Ok(fields) => lookup(fields, key) == (match last_lookup(entries, key) {
                Some(value) => Some(JsonView::Str(value)),
                None => lookup(there, key),
            }),
            Err(_) => false,
        },
    decreases entries.len(),
{
    let items = entries_value(entries)->Array_0;
    if entries.len() > 0 {
        let rest = entries.drop_first();
        let (name, value) = entries[0];
        assert(meta_entry(items[0]) == Ok::<(Seq<char>, Seq<char>), Seq<char>>((name, value)));
        assert(items.drop_first() =~= entries_value(rest)->Array_0);
        let after = with_member(there, name, JsonView::Str(value));
        entries_are_read_over(after, rest, key);
        written_member_is_found(there, name, JsonView::Str(value), key);
        last_lookup_from_front(entries, key);
    }
}

/// The entries sent to a tool are read as the same `_meta`: each key with its last
/// value, no key that was not sent, and no `_meta` where there were no entries.
pub proof fn sent_entries_are_read(entries: Seq<(Seq<char>, Seq<char>)>, key: Seq<char>)
    ensures
        match meta_of(Some(entries_value(entries))) {
            Ok(Some(fields)) => entries.len() > 0 && lookup(fields, key) == (match last_lookup(entries, key) {
                Some(value) => Some(JsonView::Str(value)),
                None => None,
            }),
            Ok(None) => entries.len() == 0,
            Err(_) => false,
        },
{
    entries_are_read_over(Seq::empty(), entries, key);
    assert(lookup(Seq::<(Seq<char>, JsonView)>::empty(), key) is None);
}

/// Entries are read, over anything, if and only if each is a pair of texts.
proof fn entries_are_read_if_each_is(there: Fields, items: Seq<JsonView>)
    ensures
        meta_entries_over(there, items) is Ok <==> forall|i: int|
            0 <= i < items.len() ==> meta_entry(#[trigger] items[i]) is Ok,
    decreases items.len(),
{
    if items.len() > 0 {
        let rest = items.drop_first();
        if let Ok((key, value)) = meta_entry(items[0]) {
            entries_are_read_if_each_is(with_member(there, key, JsonView::Str(value)), rest);
            if forall|i: int| 0 <= i < rest.len() ==> meta_entry(#[trigger] rest[i]) is Ok {
                assert forall|i: int| 0 <= i < items.len() implies meta_entry(#[trigger] items[i]) is Ok by {
                    if i > 0 {
                        assert(rest[i - 1] == items[i]);
                    }
                }
            }
            if forall|i: int| 0 <= i < items.len() ==> meta_entry(#[trigger] items[i]) is Ok {
                assert forall|i: int| 0 <= i < rest.len() implies meta_entry(#[trigger] rest[i]) is Ok by {
                    assert(rest[i] == items[i + 1]);
                }
            }
        } else {
            assert(!(meta_entry(items[0]) is Ok));
        }
    }
}

/// Whether an item is a pair of texts.
pub open spec fn is_text_pair(item: JsonView) -> bool {
    item matches JsonView::Array(pair) && pair.len() == 2 && pair[0] is Str && pair[1] is Str
}

/// There is no `_meta` where there is no value, null or an empty list; a value that is no
/// list, or a list with an item that is no pair of texts, is refused; any other list gives
/// a `_meta`.
pub proof fn meta_is_a_list_of_text_pairs(value: Option<JsonView>)
    ensures
        match value {
            None | Some(JsonView::Null) => meta_of(value) == Ok::<Option<Fields>, Seq<char>>(None),
            Some(JsonView::Array(items)) => {
                &&& meta_of(value) is Ok <==> forall|i: int| 0 <= i < items.len() ==> is_text_pair(#[trigger] items[i])
                &&& meta_of(value) matches Ok(meta) ==> (meta is None <==> items.len() == 0)
            },
            _ => meta_of(value) is Err,
        },
{
    if let Some(JsonView::Array(items)) = value {
        entries_are_read_if_each_is(Seq::empty(), items);
        assert forall|i: int| 0 <= i < items.len() implies (is_text_pair(#[trigger] items[i]) <==> meta_entry(
            items[i],
        ) is Ok) by {}
        if meta_of(value) is Ok {
            assert forall|i: int| 0 <= i < items.len() implies is_text_pair(#[trigger] items[i]) by {
                assert(meta_entry(items[i]) is Ok);
            }
        }
    }
}

} // verus!
