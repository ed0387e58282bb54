//! What `tools/list` answers with.

use vstd::prelude::*;

use crate::mcp::ToolView;
use crate::pairs::{
    collected, collected_keys_are_distinct, collected_pairs_hold_last_values, distinct_keys, found_pairs_are_the_first,
    last_lookup, lookup,
};
use crate::server::laws::listed_tools_are_found;
use crate::server::model::ResolvedToolView;
use crate::server::rules::{instructions_text, listed_tools};
use crate::text::decimal_text;
use crate::text::laws::{decimals_stand_for_numbers, is_numeral, numeral_value};

verus! {

/// Whether two tools are the same in every field.
pub open spec fn same_tool(a: ToolView, b: ToolView) -> bool {
    &&& a.name == b.name
    &&& a.title == b.title
    &&& a.description == b.description
    &&& a.input_schema == b.input_schema
    &&& a.output_schema == b.output_schema
    &&& a.annotations == b.annotations
    &&& a.meta == b.meta
}

/// A server lists as many tools as it has, and each as it is called: with every field of
/// the tool that is found under the name.
pub proof fn tools_are_listed_as_they_are_called(tools: Seq<(Seq<char>, ResolvedToolView)>, i: int)
    requires
        distinct_keys(tools),
        0 <= i < tools.len(),
    ensures
        listed_tools(tools).len() == tools.len(),
        lookup(tools, tools[i].0) matches Some(found) && same_tool(listed_tools(tools)[i], found.tool),
{
    listed_tools_are_found(tools, i);
}

/// A tool that can be called under a name is listed.
pub proof fn callable_tools_are_listed(tools: Seq<(Seq<char>, ResolvedToolView)>, name: Seq<char>)
    ensures
        lookup(tools, name) matches Some(found) ==> exists|i: int|
            0 <= i < listed_tools(tools).len() && same_tool(#[trigger] listed_tools(tools)[i], found.tool),
{
    if let Some(found) = lookup(tools, name) {
        found_pairs_are_the_first(tools, name);
        let i = choose|i: int| 0 <= i < tools.len() && tools[i].0 == name && tools[i].1 == found;
        assert(same_tool(listed_tools(tools)[i], found.tool));
    }
}

/// A server has one tool under each name that it was made with: the last one given.
pub proof fn servers_have_the_last_tool_under_each_name(
    given: Seq<(Seq<char>, ResolvedToolView)>,
    name: Seq<char>,
)
    ensures
        distinct_keys(collected(given)),
        lookup(collected(given), name) == last_lookup(given, name),
{
    collected_keys_are_distinct(given);
    collected_pairs_hold_last_values(given, name);
}

/// The instructions tell how many tools there are, in decimal notation.
pub proof fn instructions_tell_how_many_tools_there_are(count: nat)
    ensures
        exists|number: Seq<char>|
            is_numeral(number, 10) && #[trigger] numeral_value(number, 10) == count && instructions_text(count)
                == "This server provides "@ + number
                + " tools. Each tool has typed inputs and outputs described by its schema. Call tools with their required parameters."@,
{
    decimals_stand_for_numbers(count);
    assert(numeral_value(decimal_text(count), 10) == count);
}

} // verus!
