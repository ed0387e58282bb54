//! What is asked while a definition is read.

use vstd::prelude::*;

use crate::config::laws::tools::texts_are_read_item_by_item;
use crate::config::model::{AnswersView, HaltView, PropagationDirection, QuestionView};
use crate::config::rules::{
    definition, propagation_entries, propagation_property, texts_of, tool_context, tool_properties, tool_table,
};
use crate::json::{Fields, JsonView};
use crate::pairs::lookup;

verus! {

/// Whether a property lists a text.
pub open spec fn lists(props: Fields, key: Seq<char>, text: Seq<char>) -> bool {
    lookup(props, key) matches Some(JsonView::Array(items)) && items.contains(JsonView::Str(text))
}

/// Whether a question is one about a tool with these properties: about a block that it holds
/// or an entry that it lists.
pub open spec fn is_about_tool(question: QuestionView, name: Seq<char>, props: Fields) -> bool {
    match question {
        QuestionView::Selector { .. } => false,
        QuestionView::ParamEncoding { tool, block } => tool == name && lookup(props, "param-encoding"@) == Some(
            JsonView::Object(block),
        ),
        QuestionView::ResultDecoding { tool, block } => tool == name && lookup(props, "result-decoding"@) == Some(
            JsonView::Object(block),
        ),
        QuestionView::Propagation { entry } => lists(props, "propagate-request-meta"@, entry) || lists(
            props,
            "propagate-result-meta"@,
            entry,
        ),
    }
}

/// What is asked about entries is about one of them.
proof fn asked_entries_are_listed(
    context: Seq<char>,
    key: Seq<char>,
    direction: PropagationDirection,
    entries: Seq<Seq<char>>,
    answers: AnswersView,
)
    ensures
        propagation_entries(context, key, direction, entries, answers) matches Err(HaltView::Ask(question)) ==> (
        question matches QuestionView::Propagation { entry } && entries.contains(entry)),
    decreases entries.len(),
{
    if entries.len() > 0 {
        let rest = entries.drop_first();
        asked_entries_are_listed(context, key, direction, rest, answers);
        assert(entries.contains(entries[0]));
        if let Err(HaltView::Ask(QuestionView::Propagation { entry })) = propagation_entries(
            context,
            key,
            direction,
            rest,
            answers,
        ) {
            let i = choose|i: int| 0 <= i < rest.len() && rest[i] == entry;
            assert(entries[i + 1] == entry);
        }
    }
}

/// What is asked about a property is about a text that it lists.
proof fn asked_property_lists_the_entry(
    context: Seq<char>,
    key: Seq<char>,
    direction: PropagationDirection,
    props: Fields,
    answers: AnswersView,
)
    ensures
        propagation_property(context, key, direction, props, answers) matches Err(HaltView::Ask(question)) ==> (
        question matches QuestionView::Propagation { entry } && lists(props, key, entry)),
{
    if let Some(JsonView::Array(items)) = lookup(props, key) {
        let complaint = context + " '"@ + key + "' entries must be strings, got "@;
        texts_are_read_item_by_item(complaint, items);
        if let Ok(entries) = texts_of(complaint, items) {
            asked_entries_are_listed(context, key, direction, entries, answers);
            if let Err(HaltView::Ask(QuestionView::Propagation { entry })) = propagation_entries(
                context,
                key,
                direction,
                entries,
                answers,
            ) {
                let i = choose|i: int| 0 <= i < entries.len() && entries[i] == entry;
                assert(items[i] == JsonView::Str(entry));
            }
        }
    }
}

/// What is asked while a tool is read is about that tool, and about what its properties hold.
pub proof fn tools_ask_about_what_they_hold(server: Seq<char>, tool: Seq<char>, props: Fields, answers: AnswersView)
    ensures
        tool_properties(server, tool, props, answers) matches Err(HaltView::Ask(question)) ==> is_about_tool(
            question,
            tool,
            props,
        ),
{
    let context = tool_context(server, tool);
    asked_property_lists_the_entry(
        context,
        "propagate-request-meta"@,
        PropagationDirection::Inbound,
        props,
        answers,
    );
    asked_property_lists_the_entry(
        context,
        "propagate-result-meta"@,
        PropagationDirection::Outbound,
        props,
        answers,
    );
}

/// Whether a question is about one of the tools of a table.
pub open spec fn is_about_table(question: QuestionView, table: Fields) -> bool {
    exists|i: int|
        0 <= i < table.len() && ((#[trigger] table[i]).1 matches JsonView::Object(props) && is_about_tool(
            question,
            table[i].0,
            props,
        ))
}

/// What is asked while a table is read is about one of its tools.
proof fn tables_ask_about_their_tools(server: Seq<char>, table: Fields, answers: AnswersView)
    ensures
        tool_table(server, table, answers) matches Err(HaltView::Ask(question)) ==> is_about_table(question, table),
    decreases table.len(),
{
    if table.len() > 0 {
        let rest = table.drop_first();
        tables_ask_about_their_tools(server, rest, answers);
        if let JsonView::Object(props) = table[0].1 {
            tools_ask_about_what_they_hold(server, table[0].0, props, answers);
        }
        if let Err(HaltView::Ask(question)) = tool_table(server, rest, answers) {
            let i = choose|i: int|
                0 <= i < rest.len() && ((#[trigger] rest[i]).1 matches JsonView::Object(props) && is_about_tool(
                    question,
                    rest[i].0,
                    props,
                ));
            assert(table[i + 1] == rest[i]);
        }
        if let Err(HaltView::Ask(question)) = tool_table(server, table, answers) {
            if table[0].1 is Object && is_about_tool(question, table[0].0, table[0].1->Object_0) {
                assert(is_about_table(question, table));
            }
        }
    }
}

/// What is asked while a definition is read is about what it holds: its selector, or a block
/// or an entry of one of its tools.
pub proof fn definitions_ask_about_what_they_hold(
    category: Seq<char>,
    name: Seq<char>,
    props: Fields,
    answers: AnswersView,
)
    ensures
        definition(category, name, props, answers) matches Err(HaltView::Ask(question)) ==> match question {
            QuestionView::Selector { expression } => lookup(props, "component-selector"@) == Some(
                JsonView::Str(expression),
            ),
            _ => lookup(props, "tool"@) matches Some(JsonView::Object(table)) && is_about_table(question, table),
        },
{
    if let Some(JsonView::Object(table)) = lookup(props, "tool"@) {
        tables_ask_about_their_tools(name, table, answers);
        if let Err(HaltView::Ask(question)) = tool_table(name, table, answers) {
            assert(is_about_table(question, table));
            assert(!(question is Selector));
        }
    }
}

} // verus!
