//! What declared `_meta` becomes on its way in and out.

use vstd::prelude::*;

use crate::config::model::PropagatedHeaderView;
use crate::json::{with_member, Fields, JsonView};
use crate::mcp::ToolView;
use crate::pairs::{last_lookup, last_lookup_from_front, lookup};
use crate::schema::may_find;
use crate::server::laws::{drafts_carry_declared_entries, last_source, results_carry_declared_headers};
use crate::server::model::{HeadersView, MessageView, ReplyStepView, ResolvedToolView, ToolCallView};
use crate::server::rules::{
    admitted, is_first_step, lifted_meta, lowered_meta, reply_step, skipped_meta, tool_draft,
};

verus! {

/// The `_meta` that a step brings to the result.
pub open spec fn step_meta(step: ReplyStepView) -> Option<Fields> {
    match step {
        ReplyStepView::Done(result) => result.meta,
        ReplyStepView::Coerce { meta, .. } => meta,
    }
}

/// Whether a reply holds the source header of none of the entries.
pub open spec fn holds_none(headers: HeadersView, entries: Seq<PropagatedHeaderView>) -> bool {
    forall|i: int| 0 <= i < entries.len() ==> lookup(headers, (#[trigger] entries[i]).source) is None
}

/// Nothing is lowered if and only if no source header is there.
proof fn lowered_meta_is_empty_where_nothing_is_there(headers: HeadersView, entries: Seq<PropagatedHeaderView>)
    ensures
        lowered_meta(headers, entries).len() == 0 <==> holds_none(headers, entries),
    decreases entries.len(),
{
    if entries.len() > 0 {
        let front = entries.drop_last();
        lowered_meta_is_empty_where_nothing_is_there(headers, front);
        if holds_none(headers, entries) {
            assert forall|i: int| 0 <= i < front.len() implies lookup(headers, (#[trigger] front[i]).source) is None by {
                assert(front[i] == entries[i]);
            }
            assert(entries[entries.len() - 1] == entries.last());
        }
        if lookup(headers, entries.last().source) is None && holds_none(headers, front) {
            assert forall|i: int| 0 <= i < entries.len() implies lookup(
                headers,
                (#[trigger] entries[i]).source,
            ) is None by {
                if i < front.len() {
                    assert(front[i] == entries[i]);
                }
            }
        }
        if let Some(value) = lookup(headers, entries.last().source) {
            assert(with_member(lowered_meta(headers, front), entries.last().target, JsonView::Str(value)).len() > 0);
        }
    }
}

/// A result has `_meta` if and only if the reply holds a header that the tool declares.
pub proof fn results_have_meta_where_replies_have_declared_headers(
    message: MessageView,
    tool: ToolView,
    entries: Seq<PropagatedHeaderView>,
)
    ensures
        step_meta(reply_step(message, tool, entries)) is None <==> holds_none(message.headers, entries),
{
    lowered_meta_is_empty_where_nothing_is_there(message.headers, entries);
}

/// The last entry under a target is the one that no later entry with a header follows.
proof fn last_entry_is_last_source(headers: HeadersView, entries: Seq<PropagatedHeaderView>, i: int)
    requires
        0 <= i < entries.len(),
        lookup(headers, entries[i].source) is Some,
        forall|j: int|
            i < j < entries.len() && (#[trigger] entries[j]).target == entries[i].target ==> lookup(
                headers,
                entries[j].source,
            ) is None,
    ensures
        last_source(headers, entries, entries[i].target) == lookup(headers, entries[i].source),
    decreases entries.len(),
{
    let front = entries.drop_last();
    if i < entries.len() - 1 {
        assert(entries[entries.len() - 1] == entries.last());
        assert(front[i] == entries[i]);
        assert forall|j: int| i < j < front.len() && (#[trigger] front[j]).target == front[i].target implies lookup(
            headers,
            front[j].source,
        ) is None by {
            assert(front[j] == entries[j]);
        }
        last_entry_is_last_source(headers, front, i);
    }
}

/// Where no entry has a target, or none whose header is there, there is no last one.
proof fn no_entry_has_no_last_source(headers: HeadersView, entries: Seq<PropagatedHeaderView>, key: Seq<char>)
    requires
        forall|i: int|
            0 <= i < entries.len() && (#[trigger] entries[i]).target == key ==> lookup(headers, entries[i].source) is None,
    ensures
        last_source(headers, entries, key) is None,
    decreases entries.len(),
{
    if entries.len() > 0 {
        let front = entries.drop_last();
        assert(entries[entries.len() - 1] == entries.last());
        assert forall|i: int| 0 <= i < front.len() && (#[trigger] front[i]).target == key implies lookup(
            headers,
            front[i].source,
        ) is None by {
            assert(front[i] == entries[i]);
        }
        no_entry_has_no_last_source(headers, front, key);
    }
}

/// A header that the tool declares and the reply holds is in the result's `_meta`, under its
/// target, unless a later entry with that target is there too.
pub proof fn declared_headers_are_in_the_results_meta(
    message: MessageView,
    tool: ToolView,
    entries: Seq<PropagatedHeaderView>,
    i: int,
    value: Seq<char>,
)
    requires
        0 <= i < entries.len(),
        lookup(message.headers, entries[i].source) == Some(value),
        forall|j: int|
            i < j < entries.len() && (#[trigger] entries[j]).target == entries[i].target ==> lookup(
                message.headers,
                entries[j].source,
            ) is None,
    ensures
        step_meta(reply_step(message, tool, entries)) matches Some(meta) && lookup(meta, entries[i].target) == Some(
            JsonView::Str(value),
        ),
{
    last_entry_is_last_source(message.headers, entries, i);
    results_carry_declared_headers(message.headers, entries, entries[i].target);
    lowered_meta_is_empty_where_nothing_is_there(message.headers, entries);
    assert(!holds_none(message.headers, entries));
}

/// Nothing else is in the result's `_meta`: no key that is not the target of an entry whose
/// header the reply holds.
pub proof fn only_declared_headers_are_in_the_results_meta(
    message: MessageView,
    tool: ToolView,
    entries: Seq<PropagatedHeaderView>,
    key: Seq<char>,
)
    requires
        forall|i: int|
            0 <= i < entries.len() && (#[trigger] entries[i]).target == key ==> lookup(
                message.headers,
                entries[i].source,
            ) is None,
    ensures
        step_meta(reply_step(message, tool, entries)) matches Some(meta) ==> lookup(meta, key) is None,
{
    no_entry_has_no_last_source(message.headers, entries, key);
    results_carry_declared_headers(message.headers, entries, key);
}

/// The draft that a call starts with is that of its tool.
proof fn built_drafts_are_the_tools(
    call: ToolCallView,
    name: Seq<char>,
    tool: ResolvedToolView,
    arguments: Fields,
    meta: Option<Fields>,
)
    requires
        is_first_step(call, name, Some(tool), arguments, meta),
        call is Build,
    ensures
        tool_draft(tool, arguments, meta) is Ok,
        call == ToolCallView::Build(tool_draft(tool, arguments, meta)->Ok_0),
{
    let fault = choose|fault: Option<Seq<char>>|
        may_find(tool.input_validator, JsonView::Object(arguments), fault) && call == #[trigger] admitted(
            name,
            fault,
            tool_draft(tool, arguments, meta),
        );
    assert(call == admitted(name, fault, tool_draft(tool, arguments, meta)));
}

/// The message of a call has a header if and only if the tool declares it for a `_meta` key
/// of the request that has this text.
pub proof fn messages_have_the_declared_headers(
    call: ToolCallView,
    name: Seq<char>,
    tool: ResolvedToolView,
    arguments: Fields,
    meta: Option<Fields>,
    header: Seq<char>,
    value: Seq<char>,
)
    requires
        is_first_step(call, name, Some(tool), arguments, meta),
    ensures
        call matches ToolCallView::Build(draft) ==> (draft.headers.contains((header, value)) <==> meta is Some && exists|i: int|
            0 <= i < tool.propagate_request_meta.len() && (#[trigger] tool.propagate_request_meta[i]).target == header
                && lookup(meta->0, tool.propagate_request_meta[i].source) == Some(JsonView::Str(value))),
{
    if call is Build {
        built_drafts_are_the_tools(call, name, tool, arguments, meta);
        if let Some(m) = meta {
            drafts_carry_declared_entries(m, tool.propagate_request_meta, header, value);
        }
    }
}

/// Whether the request has a text for an entry.
pub open spec fn has_text(meta: Fields, entry: PropagatedHeaderView) -> bool {
    lookup(meta, entry.source) matches Some(JsonView::Str(_))
}

/// Where no entry with a target has a text, no header is lifted under it.
proof fn nothing_is_lifted_without_text(meta: Fields, entries: Seq<PropagatedHeaderView>, header: Seq<char>)
    requires
        forall|i: int| 0 <= i < entries.len() && (#[trigger] entries[i]).target == header ==> !has_text(meta, entries[i]),
    ensures
        last_lookup(lifted_meta(meta, entries), header) is None,
    decreases entries.len(),
{
    if entries.len() > 0 {
        let rest = entries.drop_first();
        assert forall|i: int| 0 <= i < rest.len() && (#[trigger] rest[i]).target == header implies !has_text(
            meta,
            rest[i],
        ) by {
            assert(rest[i] == entries[i + 1]);
        }
        nothing_is_lifted_without_text(meta, rest, header);
        let lifted = lifted_meta(meta, entries);
        if has_text(meta, entries[0]) {
            assert(entries[0].target != header);
            assert(lifted.drop_first() =~= lifted_meta(meta, rest));
            last_lookup_from_front(lifted, header);
        }
    }
}

/// Of the headers that are lifted under a target the last is that of the last entry with a
/// text.
proof fn last_text_is_lifted_last(meta: Fields, entries: Seq<PropagatedHeaderView>, i: int, value: Seq<char>)
    requires
        0 <= i < entries.len(),
        lookup(meta, entries[i].source) == Some(JsonView::Str(value)),
        forall|j: int|
            i < j < entries.len() && (#[trigger] entries[j]).target == entries[i].target ==> !has_text(meta, entries[j]),
    ensures
        last_lookup(lifted_meta(meta, entries), entries[i].target) == Some(value),
    decreases entries.len(),
{
    let rest = entries.drop_first();
    let lifted = lifted_meta(meta, entries);
    let header = entries[i].target;
    if i == 0 {
        assert forall|j: int| 0 <= j < rest.len() && (#[trigger] rest[j]).target == header implies !has_text(
            meta,
            rest[j],
        ) by {
            assert(rest[j] == entries[j + 1]);
        }
        nothing_is_lifted_without_text(meta, rest, header);
    } else {
        assert(rest[i - 1] == entries[i]);
        assert forall|j: int| i - 1 < j < rest.len() && (#[trigger] rest[j]).target == rest[i - 1].target implies !has_text(
            meta,
            rest[j],
        ) by {
            assert(rest[j] == entries[j + 1]);
        }
        last_text_is_lifted_last(meta, rest, i - 1, value);
    }
    if has_text(meta, entries[0]) {
        assert(lifted.drop_first() =~= lifted_meta(meta, rest));
        last_lookup_from_front(lifted, header);
    }
}

/// Of the headers of a message under one name the last, which is the one that stays, has the
/// text of the last declared entry that has one.
pub proof fn the_last_declared_entry_stays(
    call: ToolCallView,
    name: Seq<char>,
    tool: ResolvedToolView,
    arguments: Fields,
    meta: Fields,
    i: int,
    value: Seq<char>,
)
    requires
        is_first_step(call, name, Some(tool), arguments, Some(meta)),
        0 <= i < tool.propagate_request_meta.len(),
        lookup(meta, tool.propagate_request_meta[i].source) == Some(JsonView::Str(value)),
        forall|j: int|
            i < j < tool.propagate_request_meta.len() && (#[trigger] tool.propagate_request_meta[j]).target
                == tool.propagate_request_meta[i].target ==> !has_text(meta, tool.propagate_request_meta[j]),
    ensures
        call matches ToolCallView::Build(draft) ==> last_lookup(draft.headers, tool.propagate_request_meta[i].target)
            == Some(value),
{
    if call is Build {
        built_drafts_are_the_tools(call, name, tool, arguments, Some(meta));
        last_text_is_lifted_last(meta, tool.propagate_request_meta, i, value);
    }
}

/// One declared entry more is one header more, at the end, where the request has a text for
/// it, and is one that is skipped, with its value, where it has something else.
pub proof fn each_entry_is_carried_or_skipped(meta: Fields, entries: Seq<PropagatedHeaderView>, entry: PropagatedHeaderView)
    ensures
        lifted_meta(meta, Seq::empty()).len() == 0,
        skipped_meta(meta, Seq::empty()).len() == 0,
        match lookup(meta, entry.source) {
            Some(JsonView::Str(value)) => {
                &&& lifted_meta(meta, entries.push(entry)) == lifted_meta(meta, entries).push((entry.target, value))
                &&& skipped_meta(meta, entries.push(entry)) == skipped_meta(meta, entries)
            },
            Some(value) => {
                &&& lifted_meta(meta, entries.push(entry)) == lifted_meta(meta, entries)
                &&& skipped_meta(meta, entries.push(entry)) == skipped_meta(meta, entries).push((entry.source, value))
            },
            None => {
                &&& lifted_meta(meta, entries.push(entry)) == lifted_meta(meta, entries)
                &&& skipped_meta(meta, entries.push(entry)) == skipped_meta(meta, entries)
            },
        },
    decreases entries.len(),
{
    let all = entries.push(entry);
    if entries.len() == 0 {
        assert(all.drop_first() =~= Seq::empty());
        assert(lifted_meta(meta, Seq::empty()) =~= Seq::empty());
        assert(skipped_meta(meta, Seq::empty()) =~= Seq::empty());
        assert(entries =~= Seq::empty());
        assert(all[0] == entry);
    } else {
        let rest = entries.drop_first();
        each_entry_is_carried_or_skipped(meta, rest, entry);
        assert(all.drop_first() =~= rest.push(entry));
        assert(all[0] == entries[0]);
    }
    match lookup(meta, entry.source) {
        Some(JsonView::Str(value)) => {
            assert(lifted_meta(meta, all) =~= lifted_meta(meta, entries).push((entry.target, value)));
        },
        Some(value) => {
            assert(skipped_meta(meta, all) =~= skipped_meta(meta, entries).push((entry.source, value)));
        },
        None => {},
    }
}

} // verus!
