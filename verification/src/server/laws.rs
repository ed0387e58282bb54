//! What holds of every call, reply and span.

use vstd::prelude::*;

use crate::config::model::PropagatedHeaderView;
use crate::json::{written_member_is_found, Fields, JsonView};
use crate::mcp::{CallToolResultView, ToolView};
use crate::pairs::{distinct_keys, lookup, with_pair, written_pair_is_found};
use crate::schema::{is_plain, may_find, violation};
use crate::server::model::{
    CallEventView, HeadersView, MessageView, ReplyStepView, ResolvedToolTargetView, ResolvedToolView, ToolCallView,
};
use crate::server::rules::{
    admitted, after_reply, checked_result, coerced_result, is_coerced_result, is_first_step, lifted_meta, lowered_meta,
    member, next_step, output_may_have, reply_step, result_meta, selected_headers, skipped_meta, tool_draft,
    wrapped, wrapping_property,
};
use crate::server::span::{meta_context, traceparent_text};
use crate::text::{digit_text, hex_text};

pub mod carried;
pub mod listing;
pub mod results;
pub mod spans;
pub mod steps;
pub mod views;

verus! {

/// The `_meta` that a tool declares is on every result that follows a reply, on errors
/// too.
pub proof fn result_meta_is_on_every_result(message: MessageView, tool: ToolView, entries: Seq<PropagatedHeaderView>)
    ensures
        match reply_step(message, tool, entries) {
            ReplyStepView::Done(result) => result.meta == result_meta(message.headers, entries),
            ReplyStepView::Coerce { meta, .. } => {
                &&& meta == result_meta(message.headers, entries)
                &&& forall|coerced: Result<JsonView, Seq<char>>, fault: Option<Seq<char>>|
                    (#[trigger] coerced_result(coerced, fault, meta)).meta == meta
            },
        },
{
}

/// A header that a draft holds carries a declared `_meta` entry that has a text value,
/// and each such entry is carried.
pub proof fn drafts_carry_declared_entries(
    meta: Fields,
    entries: Seq<PropagatedHeaderView>,
    name: Seq<char>,
    value: Seq<char>,
)
    ensures
        lifted_meta(meta, entries).contains((name, value)) <==> exists|i: int|
            0 <= i < entries.len() && (#[trigger] entries[i]).target == name && lookup(meta, entries[i].source) == Some(
                JsonView::Str(value),
            ),
    decreases entries.len(),
{
    let headers = lifted_meta(meta, entries);
    if entries.len() > 0 {
        let rest = entries.drop_first();
        let tail = lifted_meta(meta, rest);
        drafts_carry_declared_entries(meta, rest, name, value);
        let carried = lookup(meta, entries[0].source) matches Some(JsonView::Str(_));
        if headers.contains((name, value)) {
            let k = choose|k: int| 0 <= k < headers.len() && headers[k] == (name, value);
            if carried && k == 0 {
                assert(entries[0].target == name);
            } else {
                assert(tail[if carried { k - 1 } else { k }] == (name, value));
                let i = choose|i: int|
                    0 <= i < rest.len() && (#[trigger] rest[i]).target == name && lookup(meta, rest[i].source) == Some(
                        JsonView::Str(value),
                    );
                assert(entries[i + 1] == rest[i]);
            }
        }
        if exists|i: int|
            0 <= i < entries.len() && (#[trigger] entries[i]).target == name && lookup(meta, entries[i].source) == Some(
                JsonView::Str(value),
            ) {
            let i = choose|i: int|
                0 <= i < entries.len() && (#[trigger] entries[i]).target == name && lookup(meta, entries[i].source)
                    == Some(JsonView::Str(value));
            if i == 0 {
                assert(headers[0] == (name, value));
            } else {
                assert(rest[i - 1] == entries[i]);
                let k = choose|k: int| 0 <= k < tail.len() && tail[k] == (name, value);
                assert(headers[if carried { k + 1 } else { k }] == (name, value));
            }
        }
    }
}

/// An entry is skipped if and only if it is declared and its value is no text: each declared
/// entry that a request has is carried or reported.
pub proof fn skipped_entries_are_reported(
    meta: Fields,
    entries: Seq<PropagatedHeaderView>,
    source: Seq<char>,
    value: JsonView,
)
    ensures
        skipped_meta(meta, entries).contains((source, value)) <==> {
            &&& exists|i: int| 0 <= i < entries.len() && (#[trigger] entries[i]).source == source
            &&& lookup(meta, source) == Some(value)
            &&& !(value is Str)
        },
    decreases entries.len(),
{
    let skipped = skipped_meta(meta, entries);
    if entries.len() > 0 {
        let rest = entries.drop_first();
        let tail = skipped_meta(meta, rest);
        skipped_entries_are_reported(meta, rest, source, value);
        let first = lookup(meta, entries[0].source) matches Some(v) && !(v is Str);
        if skipped.contains((source, value)) {
            let k = choose|k: int| 0 <= k < skipped.len() && skipped[k] == (source, value);
            if first && k == 0 {
                assert(entries[0].source == source);
            } else {
                assert(tail[if first { k - 1 } else { k }] == (source, value));
                let i = choose|i: int| 0 <= i < rest.len() && (#[trigger] rest[i]).source == source;
                assert(entries[i + 1] == rest[i]);
            }
        }
        if lookup(meta, source) == Some(value) && !(value is Str) && exists|i: int|
            0 <= i < entries.len() && (#[trigger] entries[i]).source == source {
            let i = choose|i: int| 0 <= i < entries.len() && (#[trigger] entries[i]).source == source;
            if i == 0 {
                assert(skipped[0] == (source, value));
            } else {
                assert(rest[i - 1] == entries[i]);
                let k = choose|k: int| 0 <= k < tail.len() && tail[k] == (source, value);
                assert(skipped[if first { k + 1 } else { k }] == (source, value));
            }
        }
    }
}

/// The last of the entries with a target whose source header is there.
pub open spec fn last_source(headers: HeadersView, entries: Seq<PropagatedHeaderView>, target: Seq<char>) -> Option<
    Seq<char>,
>
    decreases entries.len(),
{
    if entries.len() == 0 {
        None
    } else if entries.last().target == target && lookup(headers, entries.last().source) is Some {
        lookup(headers, entries.last().source)
    } else {
        last_source(headers, entries.drop_last(), target)
    }
}

/// A `_meta` key of a result has the value of the last declared header under it that the
/// reply holds, and is not there where the reply holds none.
pub proof fn results_carry_declared_headers(headers: HeadersView, entries: Seq<PropagatedHeaderView>, key: Seq<char>)
    ensures
        lookup(lowered_meta(headers, entries), key) == (match last_source(headers, entries, key) {
            Some(value) => Some(JsonView::Str(value)),
            None => None,
        }),
    decreases entries.len(),
{
    if entries.len() > 0 {
        let front = lowered_meta(headers, entries.drop_last());
        results_carry_declared_headers(headers, entries.drop_last(), key);
        if let Some(value) = lookup(headers, entries.last().source) {
            written_member_is_found(front, entries.last().target, JsonView::Str(value), key);
        }
    }
}

/// The headers that a reply carries on are those of the message with the given names,
/// and no others.
pub proof fn propagated_headers_are_those_named(headers: HeadersView, names: Seq<Seq<char>>, name: Seq<char>)
    ensures
        lookup(selected_headers(headers, names), name) == (if names.contains(name) {
            lookup(headers, name)
        } else {
            None
        }),
    decreases names.len(),
{
    if names.len() > 0 {
        let front = names.drop_last();
        propagated_headers_are_those_named(headers, front, name);
        if let Some(value) = lookup(headers, names.last()) {
            written_pair_is_found(selected_headers(headers, front), names.last(), value, name);
        }
        if names.contains(name) && names.last() != name {
            let i = choose|i: int| 0 <= i < names.len() && names[i] == name;
            assert(front[i] == name);
        }
        if front.contains(name) {
            let i = choose|i: int| 0 <= i < front.len() && front[i] == name;
            assert(names[i] == name);
        }
        assert(names.contains(names.last()));
    }
}

/// The trace context of a request holds the text values that its `_meta` has under the
/// given names, and nothing else.
pub proof fn trace_context_comes_from_meta(meta: Fields, names: Seq<Seq<char>>, name: Seq<char>)
    ensures
        lookup(meta_context(Some(meta), names), name) == (match lookup(meta, name) {
            Some(JsonView::Str(value)) => if names.contains(name) {
                Some(value)
            } else {
                None
            },
            _ => None,
        }),
    decreases names.len(),
{
    if names.len() > 0 {
        let front = names.drop_last();
        trace_context_comes_from_meta(meta, front, name);
        if let Some(JsonView::Str(value)) = lookup(meta, names.last()) {
            written_pair_is_found(meta_context(Some(meta), front), names.last(), value, name);
        }
        if names.contains(name) && names.last() != name {
            let i = choose|i: int| 0 <= i < names.len() && names[i] == name;
            assert(front[i] == name);
        }
        if front.contains(name) {
            let i = choose|i: int| 0 <= i < front.len() && front[i] == name;
            assert(names[i] == name);
        }
        assert(names.contains(names.last()));
    }
}

/// The propagation context of a span names that span as parent, and holds the rest of the
/// request's context.
pub proof fn span_contexts_name_the_span(context: HeadersView, trace_id: nat, span_id: nat, flags: nat, name: Seq<char>)
    ensures
        lookup(with_pair(context, "traceparent"@, traceparent_text(trace_id, span_id, flags)), name) == (if name
            == "traceparent"@ {
            Some(traceparent_text(trace_id, span_id, flags))
        } else {
            lookup(context, name)
        }),
{
    written_pair_is_found(context, "traceparent"@, traceparent_text(trace_id, span_id, flags), name);
}

/// A digit is one character.
proof fn digits_are_single(d: int)
    ensures
        digit_text(d).len() == 1,
        digit_text(d)[0] != '-',
{
    reveal_strlit("0");
    reveal_strlit("1");
    reveal_strlit("2");
    reveal_strlit("3");
    reveal_strlit("4");
    reveal_strlit("5");
    reveal_strlit("6");
    reveal_strlit("7");
    reveal_strlit("8");
    reveal_strlit("9");
    reveal_strlit("a");
    reveal_strlit("b");
    reveal_strlit("c");
    reveal_strlit("d");
    reveal_strlit("e");
    reveal_strlit("f");
}

/// Hexadecimal text has as many characters as digits were asked for, none of them a
/// hyphen.
proof fn hex_is_as_long_as_asked(n: nat, digits: nat)
    ensures
        hex_text(n, digits).len() == digits,
        forall|i: int| 0 <= i < digits ==> hex_text(n, digits)[i] != '-',
    decreases digits,
{
    if digits > 0 {
        hex_is_as_long_as_asked(n / 16, (digits - 1) as nat);
        digits_are_single((n % 16) as int);
    }
}

/// A `traceparent` has 55 characters, and hyphens just between its four fields.
pub proof fn traceparents_have_four_fields(trace_id: nat, span_id: nat, flags: nat)
    ensures
        traceparent_text(trace_id, span_id, flags).len() == 55,
        forall|i: int|
            0 <= i < 55 ==> ((#[trigger] traceparent_text(trace_id, span_id, flags)[i]) == '-' <==> i == 2 || i == 35 || i
                == 52),
{
    reveal_strlit("00-");
    reveal_strlit("-");
    hex_is_as_long_as_asked(trace_id, 32);
    hex_is_as_long_as_asked(span_id, 16);
    hex_is_as_long_as_asked(flags, 2);
    let text = traceparent_text(trace_id, span_id, flags);
    assert forall|i: int| 0 <= i < 55 implies ((#[trigger] text[i]) == '-' <==> i == 2 || i == 35 || i == 52) by {
        if 3 <= i < 35 {
            assert(text[i] == hex_text(trace_id, 32)[i - 3]);
        } else if 36 <= i < 52 {
            assert(text[i] == hex_text(span_id, 16)[i - 36]);
        } else if 53 <= i {
            assert(text[i] == hex_text(flags, 2)[i - 53]);
        }
    }
}

/// A value that is wrapped is found under the property that it is wrapped under.
pub proof fn wrapped_values_are_found(schema: Fields, value: JsonView)
    ensures
        wrapping_property(schema) matches Some(name) ==> member(wrapped(schema, value), name) == Some(value),
        wrapping_property(schema) is None ==> wrapped(schema, value) == value,
{
}

/// A result with structured content is no error and holds the coerced value, in which
/// `jsonschema` finds no fault against the output schema; of a value with -0 within a list of
/// more than 15 items it is not said which faults it finds. A result without structured
/// content is an error.
pub proof fn structured_results_conform(
    result: CallToolResultView,
    coerced: Result<JsonView, Seq<char>>,
    output_validator: Option<JsonView>,
    meta: Option<Fields>,
)
    requires
        is_coerced_result(result, coerced, output_validator, meta),
    ensures
        match result.structured_content {
            Some(value) => {
                &&& result.is_error == Some(false)
                &&& coerced == Ok::<JsonView, Seq<char>>(value)
                &&& output_validator matches Some(schema) ==> may_find(schema, value, None)
            },
            None => result.is_error == Some(true),
        },
{
    let fault = choose|fault: Option<Seq<char>>|
        output_may_have(output_validator, coerced, fault) && result == #[trigger] coerced_result(coerced, fault, meta);
    assert(result == coerced_result(coerced, fault, meta));
}

/// A message is built only for a tool that there is and for arguments in which `jsonschema`
/// finds no fault against its input schema; of arguments with -0 within a list of more than
/// 15 items it is not said which faults it finds. A call that starts otherwise is an error.
pub proof fn only_valid_calls_are_built(
    call: ToolCallView,
    name: Seq<char>,
    tool: Option<ResolvedToolView>,
    arguments: Fields,
    meta: Option<Fields>,
)
    requires
        is_first_step(call, name, tool, arguments, meta),
    ensures
        match call {
            ToolCallView::Build(_) => tool matches Some(tool) && may_find(
                tool.input_validator,
                JsonView::Object(arguments),
                None,
            ),
            ToolCallView::Done(result) => result.is_error == Some(true),
            _ => false,
        },
{
    if let Some(tool) = tool {
        let fault = choose|fault: Option<Seq<char>>|
            may_find(tool.input_validator, JsonView::Object(arguments), fault) && call == #[trigger] admitted(
                name,
                fault,
                tool_draft(tool, arguments, meta),
            );
        assert(call == admitted(name, fault, tool_draft(tool, arguments, meta)));
    }
}

/// Where -0 stands nowhere within a list of more than 15 items of the arguments, a call is
/// admitted if and only if `jsonschema` finds no fault in them, and else ends with the fault
/// it finds.
pub proof fn plain_arguments_are_judged_by_the_schema(
    call: ToolCallView,
    name: Seq<char>,
    tool: ResolvedToolView,
    arguments: Fields,
    meta: Option<Fields>,
)
    requires
        is_first_step(call, name, Some(tool), arguments, meta),
        is_plain(JsonView::Object(arguments)),
    ensures
        call == admitted(
            name,
            violation(tool.input_validator, JsonView::Object(arguments)),
            tool_draft(tool, arguments, meta),
        ),
{
}

/// Where -0 stands nowhere within a list of more than 15 items of a coerced value, the result
/// is that of the fault that `jsonschema` finds in it, if any.
pub proof fn plain_values_are_judged_by_the_schema(
    result: CallToolResultView,
    value: JsonView,
    schema: JsonView,
    meta: Option<Fields>,
)
    requires
        is_coerced_result(result, Ok(value), Some(schema), meta),
        is_plain(value),
    ensures
        result == checked_result(value, violation(schema, value), meta),
{
}

/// Whether an event is what a step waits for.
pub open spec fn awaits(call: ToolCallView, event: CallEventView) -> bool {
    match (call, event) {
        (ToolCallView::Build(_), CallEventView::Built(_)) => true,
        (ToolCallView::MapRequest { .. }, CallEventView::RequestMapped(_)) => true,
        (ToolCallView::Invoke { .. }, CallEventView::Invoked(_)) => true,
        (ToolCallView::MapReply { .. }, CallEventView::Replied(_)) => true,
        (ToolCallView::Publish { .. }, CallEventView::Published(_)) => true,
        (ToolCallView::AwaitReply { .. }, CallEventView::Replied(_)) => true,
        (ToolCallView::Coerce { .. }, CallEventView::Coerced(_)) => true,
        _ => false,
    }
}

/// How many events a call can still take in.
pub open spec fn steps_left(call: ToolCallView) -> nat {
    match call {
        ToolCallView::Build(_) => 5,
        ToolCallView::MapRequest { .. } => 4,
        ToolCallView::Invoke { .. } => 3,
        ToolCallView::Publish { .. } => 3,
        ToolCallView::MapReply { .. } => 2,
        ToolCallView::AwaitReply { .. } => 2,
        ToolCallView::Coerce { .. } => 1,
        ToolCallView::Done(_) => 0,
    }
}

/// Every event that a call waits for brings it nearer to its end, and any other leaves it
/// as it is: a call ends after five events at most.
pub proof fn calls_come_to_an_end(
    call: ToolCallView,
    event: CallEventView,
    tool: ResolvedToolView,
    can_publish: bool,
    propagated: Seq<Seq<char>>,
    fault: Option<Seq<char>>,
)
    ensures
        awaits(call, event) ==> steps_left(next_step(call, event, tool, can_publish, propagated, fault)) < steps_left(
            call,
        ),
        !awaits(call, event) ==> next_step(call, event, tool, can_publish, propagated, fault) == call,
        call is Done ==> !awaits(call, event),
{
}

/// Whether a call is on the way to a target: to the component that it names, or to the
/// channel.
pub open spec fn is_bound_for(call: ToolCallView, target: ResolvedToolTargetView, can_publish: bool) -> bool {
    match call {
        ToolCallView::MapRequest { component_name, .. } => target == (ResolvedToolTargetView::Component {
            component_name,
        }),
        ToolCallView::Invoke { component_name, .. } => target == (ResolvedToolTargetView::Component {
            component_name,
        }),
        ToolCallView::MapReply { .. } => target is Component,
        ToolCallView::Publish { channel } => can_publish && target == (ResolvedToolTargetView::Channel { channel }),
        ToolCallView::AwaitReply { channel } => can_publish && target == (ResolvedToolTargetView::Channel { channel }),
        _ => true,
    }
}

/// A call goes to its tool's target and to no other: a component is not published to, a
/// channel is not invoked, and nothing is published where the server cannot.
pub proof fn calls_go_to_their_target(
    call: ToolCallView,
    event: CallEventView,
    tool: ResolvedToolView,
    can_publish: bool,
    propagated: Seq<Seq<char>>,
    fault: Option<Seq<char>>,
)
    requires
        is_bound_for(call, tool.target, can_publish),
    ensures
        is_bound_for(next_step(call, event, tool, can_publish, propagated, fault), tool.target, can_publish),
{
}

/// A call starts on the way to its target, whatever that is.
pub proof fn calls_start_towards_any_target(
    call: ToolCallView,
    name: Seq<char>,
    tool: Option<ResolvedToolView>,
    arguments: Fields,
    meta: Option<Fields>,
    target: ResolvedToolTargetView,
    can_publish: bool,
)
    requires
        is_first_step(call, name, tool, arguments, meta),
    ensures
        is_bound_for(call, target, can_publish),
{
}

/// Every tool that a server lists is found under its name.
pub proof fn listed_tools_are_found(tools: Seq<(Seq<char>, ResolvedToolView)>, i: int)
    requires
        distinct_keys(tools),
        0 <= i < tools.len(),
    ensures
        lookup(tools, tools[i].0) == Some(tools[i].1),
    decreases tools.len(),
{
    if i > 0 {
        let rest = tools.drop_first();
        assert forall|a: int, b: int| 0 <= a < b < rest.len() implies (#[trigger] rest[a]).0 != (#[trigger] rest[b]).0 by {
            assert(rest[a] == tools[a + 1] && rest[b] == tools[b + 1]);
        }
        assert(rest[i - 1] == tools[i]);
        listed_tools_are_found(rest, i - 1);
        assert(tools[0].0 != tools[i].0);
    }
}

/// A call after events, one after the other, none of which is a coerced value.
pub open spec fn run(
    call: ToolCallView,
    events: Seq<CallEventView>,
    tool: ResolvedToolView,
    can_publish: bool,
    propagated: Seq<Seq<char>>,
) -> ToolCallView
    decreases events.len(),
{
    if events.len() == 0 {
        call
    } else {
        next_step(
            run(call, events.drop_last(), tool, can_publish, propagated),
            events.last(),
            tool,
            can_publish,
            propagated,
            None,
        )
    }
}

/// One event more is one step more.
proof fn run_one_more(
    call: ToolCallView,
    events: Seq<CallEventView>,
    event: CallEventView,
    tool: ResolvedToolView,
    can_publish: bool,
    propagated: Seq<Seq<char>>,
)
    ensures
        run(call, events.push(event), tool, can_publish, propagated) == next_step(
            run(call, events, tool, can_publish, propagated),
            event,
            tool,
            can_publish,
            propagated,
            None,
        ),
{
    assert(events.push(event).drop_last() =~= events);
}

/// A call of a component-backed tool: the message is mapped, the function invoked, and the
/// value it returned, or null, mapped to the reply that gives the result.
pub proof fn component_calls_answer_with_the_reply(
    call: ToolCallView,
    headers: HeadersView,
    returned: Option<JsonView>,
    reply: MessageView,
    tool: ResolvedToolView,
    can_publish: bool,
    propagated: Seq<Seq<char>>,
)
    requires
        call is Build,
        tool.target is Component,
    ensures
        ({
            let sent = seq![
                CallEventView::Built(headers),
                CallEventView::RequestMapped(Ok(())),
                CallEventView::Invoked(Ok(returned)),
            ];
            &&& run(call, sent, tool, can_publish, propagated) == (ToolCallView::MapReply {
                value: match returned {
                    Some(value) => value,
                    None => JsonView::Null,
                },
                propagated: selected_headers(headers, propagated),
            })
            &&& run(call, sent.push(CallEventView::Replied(Ok(reply))), tool, can_publish, propagated) == after_reply(
                reply_step(reply, tool.tool, tool.propagate_result_meta),
            )
        }),
{
    let none = Seq::<CallEventView>::empty();
    let built = none.push(CallEventView::Built(headers));
    let mapped = built.push(CallEventView::RequestMapped(Ok(())));
    let sent = mapped.push(CallEventView::Invoked(Ok(returned)));
    run_one_more(call, none, CallEventView::Built(headers), tool, can_publish, propagated);
    run_one_more(call, built, CallEventView::RequestMapped(Ok(())), tool, can_publish, propagated);
    run_one_more(call, mapped, CallEventView::Invoked(Ok(returned)), tool, can_publish, propagated);
    run_one_more(call, sent, CallEventView::Replied(Ok(reply)), tool, can_publish, propagated);
    assert(sent =~= seq![
        CallEventView::Built(headers),
        CallEventView::RequestMapped(Ok(())),
        CallEventView::Invoked(Ok(returned)),
    ]);
}

/// A call of a channel-backed tool: the message is published, and the reply that comes
/// gives the result.
pub proof fn channel_calls_answer_with_the_reply(
    call: ToolCallView,
    headers: HeadersView,
    reply: MessageView,
    tool: ResolvedToolView,
    propagated: Seq<Seq<char>>,
)
    requires
        call is Build,
        tool.target is Channel,
    ensures
        run(
            call,
            seq![
                CallEventView::Built(headers),
                CallEventView::Published(Ok(())),
                CallEventView::Replied(Ok(reply)),
            ],
            tool,
            true,
            propagated,
        ) == after_reply(reply_step(reply, tool.tool, tool.propagate_result_meta)),
{
    let none = Seq::<CallEventView>::empty();
    let built = none.push(CallEventView::Built(headers));
    let published = built.push(CallEventView::Published(Ok(())));
    run_one_more(call, none, CallEventView::Built(headers), tool, true, propagated);
    run_one_more(call, built, CallEventView::Published(Ok(())), tool, true, propagated);
    run_one_more(call, published, CallEventView::Replied(Ok(reply)), tool, true, propagated);
    assert(published.push(CallEventView::Replied(Ok(reply))) =~= seq![
        CallEventView::Built(headers),
        CallEventView::Published(Ok(())),
        CallEventView::Replied(Ok(reply)),
    ]);
}

} // verus!
