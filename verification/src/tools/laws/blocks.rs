//! What blocks of content hold, field by field.

use vstd::prelude::*;

use crate::json::{with_member, written_member_is_found, Fields, JsonView, NumberView};
use crate::mcp::{AnnotationsView, RawContentView, ResourceContentsView, Role, Timestamp};
use crate::pairs::lookup;
use crate::tools::laws::is_text_pair;
use crate::tools::rules::{
    annotations_field, content_of, meta_entries_over, meta_of, roles_of, timestamp_parsed,
};

verus! {

/// Whether a field is not there: absent or null.
pub open spec fn is_missing(object: Fields, field: Seq<char>) -> bool {
    lookup(object, field) is None || lookup(object, field) == Some(JsonView::Null)
}

/// Whether a field holds a text.
pub open spec fn is_text(object: Fields, field: Seq<char>) -> bool {
    lookup(object, field) matches Some(JsonView::Str(_))
}

/// Whether a text is the one that a field holds.
pub open spec fn is_text_of(text: Seq<char>, object: Fields, field: Seq<char>) -> bool {
    lookup(object, field) == Some(JsonView::Str(text))
}

/// Whether a text is the one that a field holds, or there is neither.
pub open spec fn is_optional_text_of(text: Option<Seq<char>>, object: Fields, field: Seq<char>) -> bool {
    match text {
        Some(s) => is_text_of(s, object, field),
        None => is_missing(object, field),
    }
}

/// Whether an object is a block with the name of its case and an object for its payload.
pub open spec fn is_block(object: Fields, case: Seq<char>, payload: Fields) -> bool {
    lookup(object, "type"@) == Some(JsonView::Str(case)) && lookup(object, "value"@) == Some(JsonView::Object(payload))
}

/// The names of the cases are all different.
proof fn cases_differ()
    ensures
        "text"@ != "image"@,
        "text"@ != "audio"@,
        "text"@ != "resource-link"@,
        "text"@ != "resource"@,
        "image"@ != "audio"@,
        "image"@ != "resource-link"@,
        "image"@ != "resource"@,
        "audio"@ != "resource-link"@,
        "audio"@ != "resource"@,
        "resource-link"@ != "resource"@,
        "text"@ != "blob"@,
{
    reveal_strlit("text");
    reveal_strlit("blob");
    reveal_strlit("image");
    reveal_strlit("audio");
    reveal_strlit("resource-link");
    reveal_strlit("resource");
    assert("text"@[0] != "blob"@[0]);
    assert("image"@[0] != "audio"@[0]);
    assert("text"@.len() == 4 && "image"@.len() == 5 && "audio"@.len() == 5);
    assert("resource-link"@.len() == 13 && "resource"@.len() == 8);
}

/// A block is an object that names one of five cases, with an object for its payload.
pub proof fn blocks_have_a_case_and_a_payload(value: JsonView)
    requires
        content_of(value) is Ok,
    ensures
        value matches JsonView::Object(object) && (lookup(object, "type"@) matches Some(JsonView::Str(case)) && (case
            == "text"@ || case == "image"@ || case == "audio"@ || case == "resource-link"@ || case == "resource"@)) && (
        lookup(object, "value"@) matches Some(JsonView::Object(_))),
{
}

/// A block of text has the text, the metadata and the annotations of its payload, and is
/// read if and only if these can be.
pub proof fn text_blocks_hold_their_fields(object: Fields, payload: Fields)
    requires
        is_block(object, "text"@, payload),
    ensures
        match content_of(JsonView::Object(object)) {
            Ok(block) => {
                &&& block.raw matches RawContentView::Text { text, meta } && is_text_of(text, payload, "text"@)
                    && meta_of(lookup(payload, "meta"@)) == Ok::<Option<Fields>, Seq<char>>(meta)
                &&& annotations_field(payload) == Ok::<Option<AnnotationsView>, Seq<char>>(block.annotations)
            },
            Err(_) => !is_text(payload, "text"@) || meta_of(lookup(payload, "meta"@)) is Err || annotations_field(
                payload,
            ) is Err,
        },
{
}

/// A block of an image has the data, the mime type, the metadata and the annotations of its
/// payload, and is read if and only if these can be.
pub proof fn image_blocks_hold_their_fields(object: Fields, payload: Fields)
    requires
        is_block(object, "image"@, payload),
    ensures
        match content_of(JsonView::Object(object)) {
            Ok(block) => {
                &&& block.raw matches RawContentView::Image { data, mime_type, meta } && is_text_of(
                    data,
                    payload,
                    "data"@,
                ) && is_text_of(mime_type, payload, "mime-type"@) && meta_of(lookup(payload, "meta"@)) == Ok::<
                    Option<Fields>,
                    Seq<char>,
                >(meta)
                &&& annotations_field(payload) == Ok::<Option<AnnotationsView>, Seq<char>>(block.annotations)
            },
            Err(_) => !is_text(payload, "data"@) || !is_text(payload, "mime-type"@) || meta_of(
                lookup(payload, "meta"@),
            ) is Err || annotations_field(payload) is Err,
        },
{
    cases_differ();
}

/// A block of audio has the data, the mime type and the annotations of its payload, and is
/// read if and only if these, and its metadata, can be.
pub proof fn audio_blocks_hold_their_fields(object: Fields, payload: Fields)
    requires
        is_block(object, "audio"@, payload),
    ensures
        match content_of(JsonView::Object(object)) {
            Ok(block) => {
                &&& block.raw matches RawContentView::Audio { data, mime_type } && is_text_of(data, payload, "data"@)
                    && is_text_of(mime_type, payload, "mime-type"@)
                &&& annotations_field(payload) == Ok::<Option<AnnotationsView>, Seq<char>>(block.annotations)
            },
            Err(_) => !is_text(payload, "data"@) || !is_text(payload, "mime-type"@) || meta_of(
                lookup(payload, "meta"@),
            ) is Err || annotations_field(payload) is Err,
        },
{
    cases_differ();
}

/// A link has the address, the name, the description, the mime type, the metadata and the
/// annotations of its payload, an empty name where there is none, and is read if and only if
/// these can be.
pub proof fn links_hold_their_fields(object: Fields, payload: Fields)
    requires
        is_block(object, "resource-link"@, payload),
    ensures
        match content_of(JsonView::Object(object)) {
            Ok(block) => {
                &&& block.raw matches RawContentView::ResourceLink { uri, name, description, mime_type, meta } && {
                    &&& is_text_of(uri, payload, "uri"@)
                    &&& is_text_of(name, payload, "name"@) || is_missing(payload, "name"@) && name.len() == 0
                    &&& is_optional_text_of(description, payload, "description"@)
                    &&& is_optional_text_of(mime_type, payload, "mime-type"@)
                    &&& meta_of(lookup(payload, "meta"@)) == Ok::<Option<Fields>, Seq<char>>(meta)
                }
                &&& annotations_field(payload) == Ok::<Option<AnnotationsView>, Seq<char>>(block.annotations)
            },
            Err(_) => !is_text(payload, "uri"@) || !(is_missing(payload, "name"@) || is_text(payload, "name"@)) || !(
            is_missing(payload, "description"@) || is_text(payload, "description"@)) || !(is_missing(
                payload,
                "mime-type"@,
            ) || is_text(payload, "mime-type"@)) || meta_of(lookup(payload, "meta"@)) is Err || annotations_field(
                payload,
            ) is Err,
        },
{
    cases_differ();
}

/// Whether a resource is of a case, with an object for its payload.
pub open spec fn is_resource(payload: Fields, case: Seq<char>, resource: Fields) -> bool {
    lookup(payload, "resource-data"@) matches Some(JsonView::Object(data)) && is_block(data, case, resource)
}

/// Whether the fields of a resource can be read.
pub open spec fn is_readable_resource(resource: Fields, case: Seq<char>) -> bool {
    &&& is_text(resource, "uri"@)
    &&& is_missing(resource, "mime-type"@) || is_text(resource, "mime-type"@)
    &&& is_text(resource, case)
    &&& meta_of(lookup(resource, "meta"@)) is Ok
}

/// An embedded text has the address, the mime type, the text and the metadata of its
/// resource, beside the metadata and the annotations of its block, and is read if and only
/// if these can be.
pub proof fn embedded_texts_hold_their_fields(object: Fields, payload: Fields, resource: Fields)
    requires
        is_block(object, "resource"@, payload),
        is_resource(payload, "text"@, resource),
    ensures
        match content_of(JsonView::Object(object)) {
            Ok(block) => {
                &&& block.raw matches RawContentView::Resource { resource: held, meta: outer } && {
                    &&& held matches ResourceContentsView::Text { uri, mime_type, text, meta } && is_text_of(
                        uri,
                        resource,
                        "uri"@,
                    ) && is_optional_text_of(mime_type, resource, "mime-type"@) && is_text_of(text, resource, "text"@)
                        && meta_of(lookup(resource, "meta"@)) == Ok::<Option<Fields>, Seq<char>>(meta)
                    &&& meta_of(lookup(payload, "meta"@)) == Ok::<Option<Fields>, Seq<char>>(outer)
                }
                &&& annotations_field(payload) == Ok::<Option<AnnotationsView>, Seq<char>>(block.annotations)
            },
            Err(_) => !is_readable_resource(resource, "text"@) || meta_of(lookup(payload, "meta"@)) is Err
                || annotations_field(payload) is Err,
        },
{
    cases_differ();
}

/// An embedded blob has the address, the mime type, the data and the metadata of its
/// resource, beside the metadata and the annotations of its block, and is read if and only
/// if these can be.
pub proof fn embedded_blobs_hold_their_fields(object: Fields, payload: Fields, resource: Fields)
    requires
        is_block(object, "resource"@, payload),
        is_resource(payload, "blob"@, resource),
    ensures
        match content_of(JsonView::Object(object)) {
            Ok(block) => {
                &&& block.raw matches RawContentView::Resource { resource: held, meta: outer } && {
                    &&& held matches ResourceContentsView::Blob { uri, mime_type, blob, meta } && is_text_of(
                        uri,
                        resource,
                        "uri"@,
                    ) && is_optional_text_of(mime_type, resource, "mime-type"@) && is_text_of(blob, resource, "blob"@)
                        && meta_of(lookup(resource, "meta"@)) == Ok::<Option<Fields>, Seq<char>>(meta)
                    &&& meta_of(lookup(payload, "meta"@)) == Ok::<Option<Fields>, Seq<char>>(outer)
                }
                &&& annotations_field(payload) == Ok::<Option<AnnotationsView>, Seq<char>>(block.annotations)
            },
            Err(_) => !is_readable_resource(resource, "blob"@) || meta_of(lookup(payload, "meta"@)) is Err
                || annotations_field(payload) is Err,
        },
{
    cases_differ();
}

/// A resource within a block is a text or a blob, with an object for its payload.
pub proof fn embedded_resources_have_a_case(object: Fields, payload: Fields)
    requires
        is_block(object, "resource"@, payload),
        content_of(JsonView::Object(object)) is Ok,
    ensures
        exists|resource: Fields|
            #[trigger] is_resource(payload, "text"@, resource) || is_resource(payload, "blob"@, resource),
{
    cases_differ();
    let data = lookup(payload, "resource-data"@)->0->Object_0;
    let resource = lookup(data, "value"@)->0->Object_0;
    assert(is_resource(payload, "text"@, resource) || is_resource(payload, "blob"@, resource));
}

/// Whether a role is what an item names.
pub open spec fn is_role_of(role: Role, item: JsonView) -> bool {
    match role {
        Role::User => item == JsonView::Str("user"@),
        Role::Assistant => item == JsonView::Str("assistant"@),
    }
}

/// Whether an item names a role.
pub open spec fn names_role(item: JsonView) -> bool {
    item == JsonView::Str("user"@) || item == JsonView::Str("assistant"@)
}

/// Roles are read item by item, if and only if each item names one.
proof fn roles_are_read_item_by_item(items: Seq<JsonView>)
    ensures
        roles_of(items) is Ok <==> forall|i: int| 0 <= i < items.len() ==> names_role(#[trigger] items[i]),
        roles_of(items) matches Ok(roles) ==> roles.len() == items.len() && forall|i: int|
            0 <= i < items.len() ==> is_role_of(roles[i], #[trigger] items[i]),
    decreases items.len(),
{
    if items.len() > 0 {
        let rest = items.drop_first();
        roles_are_read_item_by_item(rest);
        if let Ok(roles) = roles_of(items) {
            let tail = roles_of(rest)->Ok_0;
            assert forall|i: int| 0 <= i < items.len() implies is_role_of(roles[i], #[trigger] items[i]) && names_role(
                items[i],
            ) by {
                if i > 0 {
                    assert(rest[i - 1] == items[i]);
                    assert(roles[i] == tail[i - 1]);
                }
            }
        }
        if forall|i: int| 0 <= i < items.len() ==> names_role(#[trigger] items[i]) {
            assert(names_role(items[0]));
            assert forall|i: int| 0 <= i < rest.len() implies names_role(#[trigger] rest[i]) by {
                assert(rest[i] == items[i + 1]);
            }
        }
    }
}

/// Whether a number is at least 0 and at most 1; double-precision numbers are given by their
/// bits.
pub open spec fn is_between_zero_and_one(n: NumberView) -> bool {
    match n {
        NumberView::PosInt(u) => u == 0 || u == 1,
        NumberView::NegInt(_) => false,
        NumberView::Float(bits) => bits <= 0x3ff0_0000_0000_0000 || bits == 0x8000_0000_0000_0000,
    }
}

/// Whether roles are those that a field lists, or there is neither.
pub open spec fn is_audience_of(audience: Option<Seq<Role>>, object: Fields) -> bool {
    match audience {
        None => is_missing(object, "audience"@),
        Some(roles) => lookup(object, "audience"@) matches Some(JsonView::Array(items)) && roles.len() == items.len()
            && forall|i: int| 0 <= i < items.len() ==> is_role_of(roles[i], #[trigger] items[i]),
    }
}

/// Whether a number is the one that a field holds, within its range, or there is none.
pub open spec fn is_priority_of(priority: Option<NumberView>, object: Fields) -> bool {
    match priority {
        None => !(lookup(object, "priority"@) matches Some(JsonView::Number(_))),
        Some(n) => lookup(object, "priority"@) == Some(JsonView::Number(n)) && is_between_zero_and_one(n),
    }
}

/// Whether a point in time is the one whose text a field holds, or there is neither.
pub open spec fn is_time_of(time: Option<Timestamp>, object: Fields) -> bool {
    match time {
        None => is_missing(object, "last-modified"@),
        Some(t) => lookup(object, "last-modified"@) matches Some(JsonView::Str(text)) && timestamp_parsed(text) == Ok::<
            Timestamp,
            Seq<char>,
        >(t),
    }
}

/// Whether an object's audience, priority and time can be read.
pub open spec fn is_annotating(object: Fields) -> bool {
    &&& is_missing(object, "audience"@) || (lookup(object, "audience"@) matches Some(JsonView::Array(items))
        && forall|i: int| 0 <= i < items.len() ==> names_role(#[trigger] items[i]))
    &&& lookup(object, "priority"@) matches Some(JsonView::Number(n)) ==> is_between_zero_and_one(n)
    &&& is_missing(object, "last-modified"@) || (lookup(object, "last-modified"@) matches Some(JsonView::Str(text))
        && timestamp_parsed(text) is Ok)
}

/// The annotations of a payload are those of its field, each as it stands there, and there
/// are none where the field is missing; they are read if and only if each can be.
pub proof fn annotations_hold_their_fields(payload: Fields)
    ensures
        match annotations_field(payload) {
            Ok(None) => is_missing(payload, "annotations"@),
            Ok(Some(a)) => lookup(payload, "annotations"@) matches Some(JsonView::Object(object)) && is_audience_of(
                a.audience,
                object,
            ) && is_priority_of(a.priority, object) && is_time_of(a.last_modified, object),
            Err(_) => !is_missing(payload, "annotations"@) && (lookup(payload, "annotations"@) matches Some(
                JsonView::Object(object),
            ) ==> !is_annotating(object)),
        },
{
    if let Some(JsonView::Object(object)) = lookup(payload, "annotations"@) {
        if let Some(JsonView::Array(items)) = lookup(object, "audience"@) {
            roles_are_read_item_by_item(items);
        }
    }
}

/// Whether an item is a pair of texts whose first is this.
pub open spec fn is_keyed(item: JsonView, key: Seq<char>) -> bool {
    item matches JsonView::Array(pair) && pair.len() == 2 && pair[0] == JsonView::Str(key)
}

/// Entries that are read over what is there hold the last value under a key, or else what
/// was there.
proof fn last_entry_is_held(there: Fields, items: Seq<JsonView>, key: Seq<char>)
    requires
        forall|i: int| 0 <= i < items.len() ==> is_text_pair(#[trigger] items[i]),
    ensures
        meta_entries_over(there, items) is Ok,
        forall|i: int|
            0 <= i < items.len() && is_keyed(#[trigger] items[i], key) && (forall|j: int|
                i < j < items.len() ==> !is_keyed(#[trigger] items[j], key)) ==> lookup(
                meta_entries_over(there, items)->Ok_0,
                key,
            ) == Some((items[i]->Array_0)[1]),
        (forall|i: int| 0 <= i < items.len() ==> !is_keyed(#[trigger] items[i], key)) ==> lookup(
            meta_entries_over(there, items)->Ok_0,
            key,
        ) == lookup(there, key),
    decreases items.len(),
{
    if items.len() > 0 {
        let rest = items.drop_first();
        assert(is_text_pair(items[0]));
        let pair = items[0]->Array_0;
        let first = pair[0]->Str_0;
        let after = with_member(there, first, JsonView::Str(pair[1]->Str_0));
        assert forall|i: int| 0 <= i < rest.len() implies is_text_pair(#[trigger] rest[i]) by {
            assert(rest[i] == items[i + 1]);
        }
        last_entry_is_held(after, rest, key);
        written_member_is_found(there, first, JsonView::Str(pair[1]->Str_0), key);
        let read = meta_entries_over(there, items)->Ok_0;
        assert(meta_entries_over(there, items) == meta_entries_over(after, rest));
        assert forall|i: int|
            0 <= i < items.len() && is_keyed(#[trigger] items[i], key) && (forall|j: int|
                i < j < items.len() ==> !is_keyed(#[trigger] items[j], key)) implies lookup(read, key) == Some(
            (items[i]->Array_0)[1],
        ) by {
            if i > 0 {
                assert(rest[i - 1] == items[i]);
                assert forall|j: int| i - 1 < j < rest.len() implies !is_keyed(#[trigger] rest[j], key) by {
                    assert(rest[j] == items[j + 1]);
                }
            } else {
                assert forall|j: int| 0 <= j < rest.len() implies !is_keyed(#[trigger] rest[j], key) by {
                    assert(rest[j] == items[j + 1]);
                }
            }
        }
        if forall|i: int| 0 <= i < items.len() ==> !is_keyed(#[trigger] items[i], key) {
            assert(!is_keyed(items[0], key));
            assert forall|j: int| 0 <= j < rest.len() implies !is_keyed(#[trigger] rest[j], key) by {
                assert(rest[j] == items[j + 1]);
            }
        }
    }
}

/// The `_meta` that pairs of texts make holds under each key the last of its values.
pub proof fn meta_holds_the_last_value_of_a_key(items: Seq<JsonView>, i: int, key: Seq<char>)
    requires
        forall|k: int| 0 <= k < items.len() ==> is_text_pair(#[trigger] items[k]),
        0 <= i < items.len(),
        is_keyed(items[i], key),
        forall|j: int| i < j < items.len() ==> !is_keyed(#[trigger] items[j], key),
    ensures
        meta_of(Some(JsonView::Array(items))) matches Ok(Some(meta)) && lookup(meta, key) == Some((items[i]->Array_0)[1]),
{
    last_entry_is_held(Seq::empty(), items, key);
}

/// The `_meta` that pairs of texts make holds nothing under a key that none of them has.
pub proof fn meta_holds_no_other_key(items: Seq<JsonView>, key: Seq<char>)
    requires
        forall|k: int| 0 <= k < items.len() ==> is_text_pair(#[trigger] items[k]),
        forall|j: int| 0 <= j < items.len() ==> !is_keyed(#[trigger] items[j], key),
    ensures
        meta_of(Some(JsonView::Array(items))) matches Ok(meta) && (meta is Some ==> lookup(meta->0, key) is None),
{
    last_entry_is_held(Seq::empty(), items, key);
    assert(lookup(Seq::<(Seq<char>, JsonView)>::empty(), key) is None);
}

} // verus!
